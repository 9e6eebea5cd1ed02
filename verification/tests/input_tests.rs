use nescore::input::{
    handle_gamepad_event, resolve_key, EventType, HostKey, Input, InputEvent, InputResult,
};

fn ev(t: EventType, active: bool) -> InputEvent {
    InputEvent { event_type: t, active }
}

#[test]
fn button_event_sets_flag_and_continues() {
    let mut inp = Input::new();
    let r = inp.handle_event(ev(EventType::A, true));
    assert_eq!(r, InputResult::Continue);
    assert!(inp.gamepad_0.a);
    assert!(!inp.gamepad_0.b);
}

#[test]
fn same_button_event_twice_is_idempotent() {
    let mut inp = Input::new();
    inp.handle_event(ev(EventType::Start, true));
    let after_first = inp.gamepad_0;
    inp.handle_event(ev(EventType::Start, true));
    assert_eq!(inp.gamepad_0, after_first);
}

#[test]
fn right_press_then_release_leaves_right_false() {
    let mut inp = Input::new();
    let r1 = inp.handle_event(ev(EventType::Right, true));
    let r2 = inp.handle_event(ev(EventType::Right, false));
    assert_eq!(r1, InputResult::Continue);
    assert_eq!(r2, InputResult::Continue);
    assert!(!inp.gamepad_0.right);
}

#[test]
fn quit_returns_quit_and_leaves_gamepad_unchanged() {
    let mut inp = Input::new();
    inp.handle_event(ev(EventType::Up, true));
    inp.handle_event(ev(EventType::B, true));
    let before = inp.gamepad_0;
    let r = inp.handle_event(ev(EventType::Quit, true));
    assert_eq!(r, InputResult::Quit);
    assert_eq!(inp.gamepad_0, before);
}

#[test]
fn save_and_load_events_return_their_results() {
    let mut inp = Input::new();
    assert_eq!(inp.handle_event(ev(EventType::Save, true)), InputResult::SaveState);
    assert_eq!(inp.handle_event(ev(EventType::Load, true)), InputResult::LoadState);
}

#[test]
fn drain_applies_buttons_in_order_and_returns_last_control() {
    let mut inp = Input::new();
    inp.queue_event(ev(EventType::A, true));
    inp.queue_event(ev(EventType::Save, true));
    inp.queue_event(ev(EventType::Left, true));
    inp.queue_event(ev(EventType::A, false));
    inp.queue_event(ev(EventType::Load, true));
    inp.queue_event(ev(EventType::Down, true));
    let r = inp.check_input();
    // last control event wins; the earlier Save is discarded
    assert_eq!(r, InputResult::LoadState);
    // all four button events applied, in arrival order (A pressed then released)
    assert!(!inp.gamepad_0.a);
    assert!(inp.gamepad_0.left);
    assert!(inp.gamepad_0.down);
    assert!(!inp.gamepad_0.up);
}

#[test]
fn drain_without_control_events_continues() {
    let mut inp = Input::new();
    inp.queue_event(ev(EventType::Up, true));
    inp.queue_event(ev(EventType::Select, true));
    assert_eq!(inp.check_input(), InputResult::Continue);
    assert!(inp.gamepad_0.up);
    assert!(inp.gamepad_0.select);
}

#[test]
fn drain_of_empty_queue_is_not_an_error() {
    let mut inp = Input::new();
    assert_eq!(inp.check_input(), InputResult::Continue);
    assert_eq!(inp.gamepad_0, Input::new().gamepad_0);
}

#[test]
fn drain_consumes_the_queue() {
    let mut inp = Input::new();
    inp.queue_event(ev(EventType::Quit, true));
    assert_eq!(inp.check_input(), InputResult::Quit);
    // the queue is empty afterwards: a second drain sees nothing
    assert_eq!(inp.check_input(), InputResult::Continue);
}

#[test]
fn gamepad_keys_are_bound_as_documented() {
    let bindings = [
        (HostKey::Left, EventType::Left),
        (HostKey::Down, EventType::Down),
        (HostKey::Up, EventType::Up),
        (HostKey::Right, EventType::Right),
        (HostKey::Z, EventType::A),
        (HostKey::X, EventType::B),
        (HostKey::RShift, EventType::Start),
        (HostKey::Return, EventType::Select),
    ];
    for (key, expected) in bindings {
        let pressed = handle_gamepad_event(key, true).unwrap();
        assert_eq!(pressed.event_type, expected);
        assert!(pressed.active);
        let released = handle_gamepad_event(key, false).unwrap();
        assert_eq!(released.event_type, expected);
        assert!(!released.active);
    }
    assert!(handle_gamepad_event(HostKey::Other, true).is_none());
    assert!(handle_gamepad_event(HostKey::S, true).is_none());
}

#[test]
fn save_and_load_keys_act_on_press_only() {
    let save = resolve_key(HostKey::S, true).unwrap();
    assert_eq!(save.event_type, EventType::Save);
    assert!(save.active);
    let load = resolve_key(HostKey::L, true).unwrap();
    assert_eq!(load.event_type, EventType::Load);
    assert!(resolve_key(HostKey::S, false).is_none());
    assert!(resolve_key(HostKey::L, false).is_none());
    let button = resolve_key(HostKey::Z, true).unwrap();
    assert_eq!(button.event_type, EventType::A);
}
