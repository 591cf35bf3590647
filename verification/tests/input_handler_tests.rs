use cosmic_connect_plugins::input::{rate_limit_passes, InputAction, InputHandler, BTN_LEFT};
use std::time::{Duration, Instant};

fn wait(d: Duration) {
    let start = Instant::now();
    while start.elapsed() < d {}
}

#[test]
fn test_rate_limit() {
    let mut handler = InputHandler::new();

    assert!(handler.check_rate_limit());

    assert!(!handler.check_rate_limit());

    wait(Duration::from_millis(11));

    assert!(handler.check_rate_limit());
}

#[test]
fn test_set_rate_limit() {
    let mut handler = InputHandler::new();
    let new_interval = Duration::from_millis(50);
    handler.set_rate_limit(new_interval.as_nanos() as u64);
    assert_eq!(handler.rate_limit(), new_interval.as_nanos() as u64);
}

#[test]
fn input_handler_drops_events_inside_the_interval() {
    let mut handler = InputHandler::new();
    let first = handler.handle_pointer_event(10, 20, 1);
    assert_eq!(first, vec![InputAction::Move { dx: 10, dy: 20 }, InputAction::Press(BTN_LEFT)]);
    let second = handler.handle_pointer_event(30, 40, 0);
    assert!(second.is_empty());
    assert_eq!(handler.handle_key_event(Some(30), true), None);
    wait(Duration::from_millis(11));
    let third = handler.handle_pointer_event(30, 40, 0);
    assert_eq!(third, vec![InputAction::Move { dx: 20, dy: 20 }, InputAction::Release(BTN_LEFT)]);
}

#[test]
fn rate_limit_decision() {
    assert!(rate_limit_passes(None, 10_000_000));
    assert!(!rate_limit_passes(Some(9_999_999), 10_000_000));
    assert!(rate_limit_passes(Some(10_000_000), 10_000_000));
    assert!(rate_limit_passes(Some(0), 0));
}
