//! Where resource files live.
//!
//! Resources are kept below the working directory, in `res`, one directory
//! for each lesson.

use vstd::prelude::*;

verus! {

/// The path of `file` of `lesson` below the working directory `cwd`:
/// `<cwd>/res/<lesson>/<file>`.
pub open spec fn resource_path(cwd: Seq<char>, lesson: Seq<char>, file: Seq<char>) -> Seq<char> {
    cwd + "/res/"@ + lesson + "/"@ + file
}

/// Builds the path of the resource `file` of `lesson` for a process whose
/// working directory is `cwd`. The three parts are taken as they are: none
/// is checked, trimmed or escaped.
pub fn get_resource_path(cwd: &str, lesson: &str, file: &str) -> (path: String)
    ensures
        path@ == resource_path(cwd@, lesson@, file@),
{
    let mut path = String::from_str(cwd);
    path.append("/res/");
    path.append(lesson);
    path.append("/");
    path.append(file);
    path
}

/// A resource path spelled out: it begins with the working directory, ends
/// with the file name, and holds exactly six characters besides the three
/// parts, which are `/res/` before the lesson and `/` after it.
pub proof fn lemma_resource_path_parts(cwd: Seq<char>, lesson: Seq<char>, file: Seq<char>)
    ensures
        resource_path(cwd, lesson, file) == cwd + seq!['/', 'r', 'e', 's', '/'] + lesson
            + seq!['/'] + file,
        resource_path(cwd, lesson, file).len() == cwd.len() + lesson.len() + file.len() + 6,
        resource_path(cwd, lesson, file).take(cwd.len() as int) == cwd,
        resource_path(cwd, lesson, file).skip(cwd.len() + lesson.len() + 6int) == file,
{
    reveal_strlit("/res/");
    reveal_strlit("/");
}

/// Below one working directory and in one lesson, two files have the same
/// path only when they have the same name.
pub proof fn lemma_resource_path_tells_files_apart(
    cwd: Seq<char>,
    lesson: Seq<char>,
    first: Seq<char>,
    second: Seq<char>,
)
    requires
        resource_path(cwd, lesson, first) == resource_path(cwd, lesson, second),
    ensures
        first == second,
{
    lemma_resource_path_parts(cwd, lesson, first);
    lemma_resource_path_parts(cwd, lesson, second);
}

} // verus!
