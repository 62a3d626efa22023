use tile_scene::input::{is_quit_event, poll_events, Event};
use tile_scene::render_loop::{step, Action};
use tile_scene::scene::{Command, Screen, Texture};

const BACKGROUND: Texture = Texture { id: 0, width: 320, height: 240 };
const IMAGE: Texture = Texture { id: 1, width: 200, height: 50 };

#[test]
fn quit_key_and_click_end_the_loop() {
    assert!(is_quit_event(Event::Quit));
    assert!(is_quit_event(Event::KeyDown));
    assert!(is_quit_event(Event::MouseButtonDown));
}

#[test]
fn other_events_do_not_end_the_loop() {
    assert!(!is_quit_event(Event::Other));
}

#[test]
fn poll_events_of_an_empty_batch_keeps_the_flag() {
    assert!(!poll_events(false, &Vec::new()));
    assert!(poll_events(true, &Vec::new()));
}

#[test]
fn poll_events_finds_a_quit_anywhere_in_the_batch() {
    assert!(poll_events(false, &vec![Event::Quit]));
    assert!(poll_events(false, &vec![Event::KeyDown, Event::Other]));
    assert!(poll_events(false, &vec![Event::Other, Event::Other, Event::MouseButtonDown]));
    assert!(poll_events(false, &vec![Event::Other, Event::Quit, Event::Other]));
}

#[test]
fn poll_events_goes_on_without_a_quit() {
    assert!(!poll_events(false, &vec![Event::Other]));
    assert!(!poll_events(false, &vec![Event::Other, Event::Other, Event::Other]));
}

#[test]
fn poll_events_never_clears_the_flag() {
    assert!(poll_events(true, &vec![Event::Other, Event::Other]));
    assert!(poll_events(true, &vec![Event::Quit]));
}

#[test]
fn step_renders_a_frame_when_nothing_happened() {
    let screen = Screen::standard();
    let action = step(&screen, &BACKGROUND, &IMAGE, &Vec::new());
    assert_eq!(action, Action::Render(screen.draw_frame(&BACKGROUND, &IMAGE)));
}

#[test]
fn step_renders_a_frame_after_other_events() {
    let screen = Screen::new(5, 3, 2).unwrap();
    let image = Texture { id: 9, width: 1, height: 1 };
    let action = step(&screen, &BACKGROUND, &image, &vec![Event::Other, Event::Other]);
    assert_eq!(
        action,
        Action::Render(vec![
            Command::Clear,
            Command::Copy { texture: 0, x: 0, y: 0, width: 2, height: 2 },
            Command::Copy { texture: 0, x: 2, y: 0, width: 2, height: 2 },
            Command::Copy { texture: 9, x: 2, y: 1, width: 1, height: 1 },
            Command::Present,
        ])
    );
}

#[test]
fn step_exits_on_quit_key_or_click() {
    let screen = Screen::standard();
    for event in [Event::Quit, Event::KeyDown, Event::MouseButtonDown] {
        assert_eq!(step(&screen, &BACKGROUND, &IMAGE, &vec![event]), Action::Exit);
        assert_eq!(step(&screen, &BACKGROUND, &IMAGE, &vec![Event::Other, event]), Action::Exit);
        assert_eq!(step(&screen, &BACKGROUND, &IMAGE, &vec![event, Event::Other]), Action::Exit);
    }
}
