use tile_scene::resource::get_resource_path;

#[test]
fn resource_path_of_a_lesson_file() {
    assert_eq!(
        get_resource_path("/home/user/tutorial", "lesson2", "background.bmp"),
        "/home/user/tutorial/res/lesson2/background.bmp"
    );
    assert_eq!(
        get_resource_path("/srv", "lesson3", "background.png"),
        "/srv/res/lesson3/background.png"
    );
    assert_eq!(get_resource_path("/srv", "lesson6", "sample.ttf"), "/srv/res/lesson6/sample.ttf");
}

#[test]
fn resource_path_takes_the_parts_as_they_are() {
    assert_eq!(get_resource_path("", "", ""), "/res//");
    assert_eq!(get_resource_path("/", "a", "b"), "//res/a/b");
    assert_eq!(get_resource_path("/w", "/abs", "/file"), "/w/res//abs//file");
    assert_eq!(get_resource_path("/w", "a b", "c d.png"), "/w/res/a b/c d.png");
    assert_eq!(get_resource_path("/w", "x/y", "../z"), "/w/res/x/y/../z");
}

#[test]
fn resource_path_keeps_characters_outside_ascii() {
    assert_eq!(
        get_resource_path("/h\u{f6}me", "le\u{e7}on", "fond.bmp"),
        "/h\u{f6}me/res/le\u{e7}on/fond.bmp"
    );
}

#[test]
fn resource_path_begins_with_the_directory_and_ends_with_the_file() {
    let cases = [("/a", "b", "c"), ("/long/way/down", "lesson12", "x.y.z"), ("rel", "", "f")];
    for (cwd, lesson, file) in cases {
        let path = get_resource_path(cwd, lesson, file);
        assert!(path.starts_with(cwd));
        assert!(path.ends_with(file));
        assert_eq!(path.len(), cwd.len() + lesson.len() + file.len() + 6);
        assert_eq!(path, format!("{}/res/{}/{}", cwd, lesson, file));
    }
}

#[test]
fn resource_path_tells_files_apart() {
    let first = get_resource_path("/w", "lesson1", "a.bmp");
    let second = get_resource_path("/w", "lesson1", "b.bmp");
    let again = get_resource_path("/w", "lesson1", "a.bmp");
    assert_ne!(first, second);
    assert_eq!(first, again);
}
