use lumentra::button::{Button, ButtonEvent};

#[test]
fn a_press_and_a_release_are_reported_once() {
    let mut button = Button::new(2, 42);
    assert_eq!(button.poll(false), None);
    assert_eq!(button.poll(true), Some(ButtonEvent::Pressed { index: 2, note: 42 }));
    assert_eq!(button.poll(true), None);
    assert_eq!(button.poll(false), Some(ButtonEvent::Released { index: 2, note: 42 }));
    assert_eq!(button.poll(false), None);
}

#[test]
fn presses_and_releases_take_turns() {
    let mut button = Button::new(0, 36);
    let mut held = false;
    for now in [true, true, false, true, false, false, true] {
        match button.poll(now) {
            Some(ButtonEvent::Pressed { .. }) => {
                assert!(!held);
                held = true;
            }
            Some(ButtonEvent::Released { .. }) => {
                assert!(held);
                held = false;
            }
            None => {}
        }
        assert_eq!(held, now);
    }
}
