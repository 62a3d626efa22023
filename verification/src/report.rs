//! How a failure is worded and reported.
//!
//! A failure has a message, which says what could not be done, and a chain of
//! causes, each of which says what caused the message before it. It may come
//! with a backtrace, which the caller hands in as text.

use vstd::prelude::*;

verus! {

/// Exit code of a run that ended well.
pub const EXIT_SUCCESS: i32 = 0;

/// Exit code of a run that failed.
pub const EXIT_FAILURE: i32 = 1;

/// A step of the run that can fail. Each has a message of its own, under
/// which its failure is reported.
#[derive(Debug, PartialEq, Eq)]
pub enum Failure {
    /// The multimedia library did not start.
    SdlInit,
    /// The image subsystem did not start.
    ImageInit,
    /// The font subsystem did not start.
    TtfInit,
    /// The video subsystem did not start.
    VideoInit,
    /// The window could not be made.
    WindowBuild,
    /// The renderer could not be made.
    RendererBuild,
    /// The renderer did not tell its output size.
    OutputSize,
    /// The event queue could not be had.
    EventPump,
    /// The working directory could not be read.
    CurrentDir,
    /// The resource at this path could not be loaded: the file is missing or
    /// cannot be decoded.
    ResourceLoad(String),
    /// The text could not be rasterized.
    TextSurface(String),
    /// The rasterized text could not be turned into a texture.
    TextTexture(String),
    /// A texture could not be copied to the back buffer.
    TextureCopy,
}

/// The message under which `failure` is reported.
pub open spec fn context(failure: Failure) -> Seq<char> {
    match failure {
        Failure::SdlInit => "Failed to init sdl context"@,
        Failure::ImageInit => "Failed to init image context"@,
        Failure::TtfInit => "Failed to init ttf context"@,
        Failure::VideoInit => "Failed to init video subsystem"@,
        Failure::WindowBuild => "Failed to build main window"@,
        Failure::RendererBuild => "Failed to build sdl renderer"@,
        Failure::OutputSize => "Failed to get renderer output size"@,
        Failure::EventPump => "Failed to get event pump"@,
        Failure::CurrentDir => "Couldn't get current directory"@,
        Failure::ResourceLoad(path) => "Failed to load resource: "@ + path@,
        Failure::TextSurface(text) => "Failed to render text to surface: "@ + text@,
        Failure::TextTexture(text) => "Failed to create texture from text: "@ + text@,
        Failure::TextureCopy => "Failed to copy texture"@,
    }
}

/// Why a run failed.
#[derive(Debug, PartialEq, Eq)]
pub struct RunError {
    /// What could not be done.
    pub message: String,
    /// What caused it, from the nearest cause down to the first.
    pub causes: Vec<String>,
    /// The backtrace, if one was taken.
    pub backtrace: Option<String>,
}

/// The lines for the causes: one for each, in order.
pub open spec fn cause_lines(causes: Seq<String>) -> Seq<Seq<char>> {
    Seq::new(causes.len(), |i: int| "caused by: "@ + causes[i]@)
}

/// The report on a failure: a line with its message, a line for each cause
/// and then, if it has a backtrace, one line with it.
pub open spec fn report_lines(error: RunError) -> Seq<Seq<char>> {
    let lines = seq!["error: "@ + error.message@] + cause_lines(error.causes@);
    match error.backtrace {
        Some(trace) => lines.push("backtrace: "@ + trace@),
        None => lines,
    }
}

/// The lines of a report, as plain sequences of characters.
pub open spec fn lines_view(lines: Seq<String>) -> Seq<Seq<char>> {
    Seq::new(lines.len(), |i: int| lines[i]@)
}

/// `text` ends with `part`, character for character.
pub open spec fn ends_with(text: Seq<char>, part: Seq<char>) -> bool {
    text.len() >= part.len() && text.skip(text.len() - part.len()) == part
}

/// What the process writes to standard error and the code it exits with.
#[derive(Debug, PartialEq, Eq)]
pub struct Report {
    pub lines: Vec<String>,
    pub exit_code: i32,
}

/// Words the message under which `failure` is reported.
pub fn context_message(failure: &Failure) -> (message: String)
    ensures
        message@ == context(*failure),
{
    match failure {
        Failure::SdlInit => String::from_str("Failed to init sdl context"),
        Failure::ImageInit => String::from_str("Failed to init image context"),
        Failure::TtfInit => String::from_str("Failed to init ttf context"),
        Failure::VideoInit => String::from_str("Failed to init video subsystem"),
        Failure::WindowBuild => String::from_str("Failed to build main window"),
        Failure::RendererBuild => String::from_str("Failed to build sdl renderer"),
        Failure::OutputSize => String::from_str("Failed to get renderer output size"),
        Failure::EventPump => String::from_str("Failed to get event pump"),
        Failure::CurrentDir => String::from_str("Couldn't get current directory"),
        Failure::ResourceLoad(path) => {
            let mut message = String::from_str("Failed to load resource: ");
            message.append(path.as_str());
            message
        },
        Failure::TextSurface(text) => {
            let mut message = String::from_str("Failed to render text to surface: ");
            message.append(text.as_str());
            message
        },
        Failure::TextTexture(text) => {
            let mut message = String::from_str("Failed to create texture from text: ");
            message.append(text.as_str());
            message
        },
        Failure::TextureCopy => String::from_str("Failed to copy texture"),
    }
}

/// Writes the report on a failure: the message after `error: `, every cause
/// after `caused by: `, and the backtrace, if there is one, after
/// `backtrace: `, each on a line of its own.
pub fn error_report(error: &RunError) -> (lines: Vec<String>)
    ensures
        lines_view(lines@) == report_lines(*error),
{
    let mut lines: Vec<String> = Vec::new();
    let mut first = String::from_str("error: ");
    first.append(error.message.as_str());
    lines.push(first);
    let mut i: usize = 0;
    while i < error.causes.len()
        invariant
            i <= error.causes.len(),
            lines@.len() == i + 1,
            lines@[0]@ == "error: "@ + error.message@,
            forall|k: int|
                1 <= k <= i ==> (#[trigger] lines@[k])@ == "caused by: "@ + error.causes@[k - 1]@,
        decreases error.causes.len() - i,
    {
        let mut line = String::from_str("caused by: ");
        line.append(error.causes[i].as_str());
        lines.push(line);
        i = i + 1;
    }
    match &error.backtrace {
        Some(trace) => {
            let mut line = String::from_str("backtrace: ");
            line.append(trace.as_str());
            lines.push(line);
        },
        None => {},
    }
    lines
}

/// Closes a run: a run that ended well reports nothing and exits with 0, a
/// run that failed reports why and exits with 1.
pub fn report(outcome: &Result<(), RunError>) -> (summary: Report)
    ensures
        outcome is Ok ==> summary.lines@.len() == 0 && summary.exit_code == EXIT_SUCCESS,
        outcome matches Err(error) ==> lines_view(summary.lines@) == report_lines(*error)
            && summary.exit_code == EXIT_FAILURE,
{
    match outcome {
        Ok(_) => Report { lines: Vec::new(), exit_code: EXIT_SUCCESS },
        Err(error) => Report { lines: error_report(error), exit_code: EXIT_FAILURE },
    }
}

/// A text that is put together from two parts ends with the second.
pub proof fn lemma_ends_with_second(first: Seq<char>, second: Seq<char>)
    ensures
        ends_with(first + second, second),
{
    assert((first + second).skip(first.len() as int) =~= second);
}

/// The message of a load that failed names the path that was tried: it ends
/// with the path, character for character.
pub proof fn lemma_load_failure_names_path(path: String)
    ensures
        context(Failure::ResourceLoad(path)) == "Failed to load resource: "@ + path@,
        ends_with(context(Failure::ResourceLoad(path)), path@),
{
    lemma_ends_with_second("Failed to load resource: "@, path@);
}

/// Nothing is lost in a report. It is never empty: its first line ends with
/// the failure's message, and the line after it for each cause ends with
/// that cause, word for word.
pub proof fn lemma_report_keeps_messages(error: RunError)
    ensures
        report_lines(error).len() >= 1 + error.causes@.len(),
        ends_with(report_lines(error)[0], error.message@),
        forall|i: int|
            0 <= i < error.causes@.len() ==> ends_with(
                #[trigger] report_lines(error)[i + 1],
                error.causes@[i]@,
            ),
{
    lemma_ends_with_second("error: "@, error.message@);
    assert forall|i: int| 0 <= i < error.causes@.len() implies ends_with(
        #[trigger] report_lines(error)[i + 1],
        error.causes@[i]@,
    ) by {
        lemma_ends_with_second("caused by: "@, error.causes@[i]@);
    }
}

/// A load that failed is reported with the path that was tried: when the
/// failure's message is that of a load of `path`, the first line of the
/// report is `error: Failed to load resource: ` and then `path`.
pub proof fn lemma_report_names_path(error: RunError, path: String)
    requires
        error.message@ == context(Failure::ResourceLoad(path)),
    ensures
        report_lines(error).len() >= 1,
        report_lines(error)[0] == "error: "@ + ("Failed to load resource: "@ + path@),
        ends_with(report_lines(error)[0], path@),
{
    let line = "error: "@ + ("Failed to load resource: "@ + path@);
    assert(line =~= ("error: "@ + "Failed to load resource: "@) + path@);
    lemma_ends_with_second("error: "@ + "Failed to load resource: "@, path@);
}

} // verus!
