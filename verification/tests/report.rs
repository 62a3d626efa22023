use tile_scene::report::{
    context_message, error_report, report, Failure, Report, RunError, EXIT_FAILURE, EXIT_SUCCESS,
};
use tile_scene::resource::get_resource_path;

fn failure(message: &str, causes: &[&str], backtrace: Option<&str>) -> RunError {
    RunError {
        message: message.to_string(),
        causes: causes.iter().map(|cause| cause.to_string()).collect(),
        backtrace: backtrace.map(|trace| trace.to_string()),
    }
}

#[test]
fn context_messages_of_the_subsystems() {
    assert_eq!(context_message(&Failure::SdlInit), "Failed to init sdl context");
    assert_eq!(context_message(&Failure::ImageInit), "Failed to init image context");
    assert_eq!(context_message(&Failure::TtfInit), "Failed to init ttf context");
    assert_eq!(context_message(&Failure::VideoInit), "Failed to init video subsystem");
    assert_eq!(context_message(&Failure::EventPump), "Failed to get event pump");
}

#[test]
fn context_messages_of_window_and_renderer() {
    assert_eq!(context_message(&Failure::WindowBuild), "Failed to build main window");
    assert_eq!(context_message(&Failure::RendererBuild), "Failed to build sdl renderer");
    assert_eq!(context_message(&Failure::OutputSize), "Failed to get renderer output size");
    assert_eq!(context_message(&Failure::TextureCopy), "Failed to copy texture");
}

#[test]
fn context_message_of_the_working_directory() {
    assert_eq!(context_message(&Failure::CurrentDir), "Couldn't get current directory");
}

#[test]
fn context_messages_name_the_text() {
    assert_eq!(
        context_message(&Failure::TextSurface(String::from("TTF fonts are cool!"))),
        "Failed to render text to surface: TTF fonts are cool!"
    );
    assert_eq!(
        context_message(&Failure::TextTexture(String::from("TTF fonts are cool!"))),
        "Failed to create texture from text: TTF fonts are cool!"
    );
    assert_eq!(
        context_message(&Failure::TextSurface(String::new())),
        "Failed to render text to surface: "
    );
}

#[test]
fn load_failure_names_the_path() {
    assert_eq!(
        context_message(&Failure::ResourceLoad(String::from("/srv/res/lesson3/background.png"))),
        "Failed to load resource: /srv/res/lesson3/background.png"
    );
    assert_eq!(context_message(&Failure::ResourceLoad(String::new())), "Failed to load resource: ");
}

#[test]
fn load_failure_ends_with_any_path() {
    for path in ["a", "/x/y z.bmp", "rel/\u{e9}t\u{e9}.png", "//res//", "Failed to load resource: "] {
        let message = context_message(&Failure::ResourceLoad(path.to_string()));
        assert!(message.ends_with(path));
        assert_eq!(message.len(), "Failed to load resource: ".len() + path.len());
    }
}

#[test]
fn missing_resource_is_reported_with_the_attempted_path() {
    let path = get_resource_path("/srv/tutorial", "lesson3", "background.png");
    let error = RunError {
        message: context_message(&Failure::ResourceLoad(path.clone())),
        causes: vec![String::from("no such file")],
        backtrace: None,
    };
    let summary = report(&Err(error));
    assert_eq!(summary.exit_code, 1);
    assert_eq!(
        summary.lines,
        vec![
            String::from(
                "error: Failed to load resource: /srv/tutorial/res/lesson3/background.png"
            ),
            String::from("caused by: no such file"),
        ]
    );
    assert!(summary.lines[0].ends_with(&path));
}

#[test]
fn error_report_of_a_message_without_causes() {
    assert_eq!(error_report(&failure("boom", &[], None)), vec![String::from("error: boom")]);
}

#[test]
fn error_report_names_the_causes_in_order() {
    let error = failure(
        "Failed to build main window",
        &["SDL error: no video device", "out of luck"],
        None,
    );
    assert_eq!(
        error_report(&error),
        vec![
            String::from("error: Failed to build main window"),
            String::from("caused by: SDL error: no video device"),
            String::from("caused by: out of luck"),
        ]
    );
}

#[test]
fn error_report_ends_with_the_backtrace() {
    let error = failure("Failed to init ttf context", &["no ttf"], Some("0: main"));
    assert_eq!(
        error_report(&error),
        vec![
            String::from("error: Failed to init ttf context"),
            String::from("caused by: no ttf"),
            String::from("backtrace: 0: main"),
        ]
    );
}

#[test]
fn error_report_is_never_empty() {
    assert_eq!(error_report(&failure("", &[], None)), vec![String::from("error: ")]);
    assert_eq!(
        error_report(&failure("", &[], Some("t"))),
        vec![String::from("error: "), String::from("backtrace: t")]
    );
}

#[test]
fn error_report_keeps_every_message() {
    let error = failure("top", &["middle", "bottom"], Some("trace"));
    let lines = error_report(&error);
    assert_eq!(lines.len(), 4);
    assert!(lines[0].ends_with("top"));
    assert!(lines[1].ends_with("middle"));
    assert!(lines[2].ends_with("bottom"));
}

#[test]
fn report_of_a_good_run() {
    assert_eq!(EXIT_SUCCESS, 0);
    assert_eq!(report(&Ok(())), Report { lines: Vec::new(), exit_code: 0 });
}

#[test]
fn report_of_a_failed_run() {
    assert_eq!(EXIT_FAILURE, 1);
    let error = failure("Failed to init ttf context", &["no ttf"], None);
    assert_eq!(
        report(&Err(error)),
        Report {
            lines: vec![
                String::from("error: Failed to init ttf context"),
                String::from("caused by: no ttf"),
            ],
            exit_code: 1,
        }
    );
}

#[test]
fn report_of_a_failed_run_with_a_backtrace() {
    let error = failure("boom", &[], Some("stack"));
    assert_eq!(
        report(&Err(error)),
        Report {
            lines: vec![String::from("error: boom"), String::from("backtrace: stack")],
            exit_code: 1,
        }
    );
}
