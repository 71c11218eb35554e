use lumentra::midi::{distance_to_cc, midi_control_change, midi_note_off, midi_note_on};
use lumentra::midi::{BUTTON_NOTES, BUTTON_VELOCITY, CC_DISTANCE};

#[test]
fn distance_at_the_ends_of_the_range() {
    assert_eq!(distance_to_cc(40), 127);
    assert_eq!(distance_to_cc(450), 0);
}

#[test]
fn distance_beyond_the_range() {
    assert_eq!(distance_to_cc(0), 127);
    assert_eq!(distance_to_cc(39), 127);
    assert_eq!(distance_to_cc(451), 0);
    assert_eq!(distance_to_cc(8190), 0);
    assert_eq!(distance_to_cc(u16::MAX), 0);
}

#[test]
fn distance_inside_the_range() {
    // 205 * 127 / 410 is 63.5.
    assert_eq!(distance_to_cc(245), 64);
    // 3 * 127 / 410 is less than one, 4 * 127 / 410 is more.
    assert_eq!(distance_to_cc(43), 127);
    assert_eq!(distance_to_cc(44), 126);
    assert_eq!(distance_to_cc(449), 1);
}

#[test]
fn nearer_hands_never_give_lower_values() {
    let mut previous = distance_to_cc(0);
    for mm in 1..=600u16 {
        let cc = distance_to_cc(mm);
        assert!(cc <= previous && previous - cc <= 1, "at {} mm", mm);
        previous = cc;
    }
}

#[test]
fn every_value_belongs_to_a_distance() {
    let mut reached = [false; 128];
    for mm in 40..=450u16 {
        reached[distance_to_cc(mm) as usize] = true;
    }
    assert!(reached.iter().all(|&value| value));
}

#[test]
fn packets() {
    assert_eq!(midi_note_on(36, 110), [0x09, 0x90, 36, 110]);
    assert_eq!(midi_note_off(46), [0x08, 0x80, 46, 0]);
    assert_eq!(midi_control_change(74, 5), [0x0B, 0xB0, 74, 5]);
}

#[test]
fn packets_repeat_the_kind_of_message() {
    for packet in [
        midi_note_on(BUTTON_NOTES[0], BUTTON_VELOCITY),
        midi_note_off(BUTTON_NOTES[3]),
        midi_control_change(CC_DISTANCE, 127),
    ] {
        assert_eq!(packet[0], packet[1] >> 4);
        assert!(packet[2] < 128 && packet[3] < 128);
    }
}
