use sdf_quad::controller::{Action, Event, FrameController, Key};

#[test]
fn starts_running() {
    let c = FrameController::new();
    assert!(c.should_draw());
}

#[test]
fn close_request_stops_before_any_further_draw() {
    let mut c = FrameController::new();
    let actions = c.handle_events(&vec![Event::Other, Event::CloseRequested, Event::Other]);
    assert!(!c.should_draw());
    assert!(actions.is_empty());
}

#[test]
fn escape_stops() {
    let mut c = FrameController::new();
    c.handle_events(&vec![Event::KeyPress(Key::Escape)]);
    assert!(!c.should_draw());
}

#[test]
fn other_key_keeps_running() {
    let mut c = FrameController::new();
    c.handle_events(&vec![Event::KeyPress(Key::Other), Event::Other]);
    assert!(c.should_draw());
}

#[test]
fn stopped_stays_stopped() {
    let mut c = FrameController::new();
    c.handle_events(&vec![Event::CloseRequested]);
    c.handle_events(&vec![Event::KeyPress(Key::Other), Event::Other]);
    assert!(!c.should_draw());
}

#[test]
fn resize_asks_for_reconfiguration() {
    let mut c = FrameController::new();
    let a = c.handle_event(&Event::Resized(640, 480));
    assert_eq!(a, Some(Action::Reconfigure(640, 480)));
    assert!(c.should_draw());
}

#[test]
fn repeated_resize_reconfigures_twice() {
    // No change detection: the same dimensions twice in a row ask for
    // two reconfigurations.
    let mut c = FrameController::new();
    let actions = c.handle_events(&vec![Event::Resized(300, 200), Event::Resized(300, 200)]);
    assert_eq!(actions, vec![Action::Reconfigure(300, 200), Action::Reconfigure(300, 200)]);
    assert!(c.should_draw());
}

#[test]
fn events_after_a_stop_are_still_drained() {
    let mut c = FrameController::new();
    let actions = c.handle_events(&vec![Event::CloseRequested, Event::Resized(10, 20)]);
    assert!(!c.should_draw());
    assert_eq!(actions, vec![Action::Reconfigure(10, 20)]);
}

#[test]
fn empty_drain_is_a_no_op() {
    let mut c = FrameController::new();
    let actions = c.handle_events(&vec![]);
    assert!(c.should_draw());
    assert!(actions.is_empty());
}
