use lumentra::button::ButtonEvent;
use lumentra::controls::{Controls, NO_CC};

#[test]
fn starts_with_nothing_held_and_no_value() {
    let controls = Controls::new();
    assert_eq!(controls.button_states(), [false; 4]);
    assert_eq!(controls.last_cc(), NO_CC);
}

#[test]
fn records_the_buttons() {
    let mut controls = Controls::new();
    assert_eq!(
        controls.poll_button(3, true),
        Some(ButtonEvent::Pressed { index: 3, note: 46 })
    );
    assert_eq!(
        controls.poll_button(1, true),
        Some(ButtonEvent::Pressed { index: 1, note: 38 })
    );
    assert_eq!(controls.poll_button(1, true), None);
    assert_eq!(controls.button_states(), [false, true, false, true]);
    assert_eq!(
        controls.poll_button(3, false),
        Some(ButtonEvent::Released { index: 3, note: 46 })
    );
    assert_eq!(controls.button_states(), [false, true, false, false]);
}

#[test]
fn the_first_distance_is_always_reported() {
    for mm in [0u16, 40, 41, 245, 450, 9000] {
        assert!(Controls::new().poll_distance(mm).is_some());
    }
}

#[test]
fn a_value_is_reported_when_it_has_moved_by_two() {
    let mut controls = Controls::new();
    assert_eq!(controls.poll_distance(245), Some(64));
    // The same value, one less, one more.
    assert_eq!(controls.poll_distance(245), None);
    assert_eq!(controls.poll_distance(249), None);
    assert_eq!(controls.poll_distance(242), None);
    assert_eq!(controls.last_cc(), 64);
    // Two less, then back.
    assert_eq!(controls.poll_distance(252), Some(62));
    assert_eq!(controls.poll_distance(245), Some(64));
}

#[test]
fn the_bar_is_redrawn_for_a_new_value() {
    let mut controls = Controls::new();
    assert_eq!(controls.poll_display(), None);
    controls.poll_distance(450);
    assert_eq!(controls.poll_display(), Some(0));
    assert_eq!(controls.poll_display(), None);
}
