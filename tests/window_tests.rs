use gfx_trials::window::{frames_drawn, respond, CloseFlag, Key, KeyState, Response, WindowInput};

fn escape(state: KeyState) -> WindowInput {
    WindowInput::Keyboard { key: Key::Escape, state }
}

#[test]
fn close_request_exits() {
    assert_eq!(respond(&WindowInput::CloseRequested), Response::Exit);
}

#[test]
fn escape_press_exits() {
    assert_eq!(respond(&escape(KeyState::Pressed)), Response::Exit);
}

#[test]
fn escape_release_is_ignored() {
    assert_eq!(respond(&escape(KeyState::Released)), Response::Ignore);
}

#[test]
fn other_key_is_ignored() {
    let e = WindowInput::Keyboard { key: Key::Other, state: KeyState::Pressed };
    assert_eq!(respond(&e), Response::Ignore);
    assert_eq!(respond(&WindowInput::Other), Response::Ignore);
}

#[test]
fn redraw_request_asks_for_redraw() {
    assert_eq!(respond(&WindowInput::RedrawRequested), Response::RequestRedraw);
}

#[test]
fn flag_starts_clear_and_stays_set() {
    let mut flag = CloseFlag::new();
    assert!(!flag.should_close());
    flag.observe(&WindowInput::RedrawRequested);
    assert!(!flag.should_close());
    flag.observe(&escape(KeyState::Pressed));
    assert!(flag.should_close());
    flag.observe(&escape(KeyState::Released));
    flag.observe(&WindowInput::Other);
    assert!(flag.should_close());
}

#[test]
fn process_input_sets_flag_on_escape_only() {
    let mut flag = CloseFlag::new();
    flag.process_input(KeyState::Released);
    assert!(!flag.should_close());
    flag.process_input(KeyState::Pressed);
    assert!(flag.should_close());
    flag.process_input(KeyState::Released);
    assert!(flag.should_close());
}

#[test]
fn loop_stops_after_frame_with_escape() {
    let inputs = vec![
        WindowInput::Other,
        WindowInput::RedrawRequested,
        escape(KeyState::Pressed),
        WindowInput::Other,
        WindowInput::CloseRequested,
    ];
    assert_eq!(frames_drawn(&inputs), 3);
}

#[test]
fn loop_stops_after_close_request() {
    let inputs = vec![WindowInput::CloseRequested, WindowInput::Other];
    assert_eq!(frames_drawn(&inputs), 1);
}

#[test]
fn loop_runs_all_frames_without_close() {
    let inputs = vec![WindowInput::Other, escape(KeyState::Released), WindowInput::RedrawRequested];
    assert_eq!(frames_drawn(&inputs), 3);
    assert_eq!(frames_drawn(&Vec::new()), 0);
}
