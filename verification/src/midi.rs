//! The MIDI messages of the controller, as USB MIDI event packets.
use vstd::prelude::*;

verus! {

/// The channel on which the controller sends.
pub const MIDI_CHANNEL: u8 = 0;

/// The controller number of the distance value.
pub const CC_DISTANCE: u8 = 74;

/// The notes of the four buttons.
pub const BUTTON_NOTES: [u8; 4] = [36, 38, 42, 46];

/// The velocity of every note.
pub const BUTTON_VELOCITY: u8 = 110;

/// Distances up to this one give the highest value.
pub const DISTANCE_MIN_MM: u16 = 40;

/// Distances from this one on give the lowest value.
pub const DISTANCE_MAX_MM: u16 = 450;

/// The packet that starts a note.
pub open spec fn note_on_packet(note: u8, velocity: u8) -> Seq<u8> {
    seq![0x09u8, (0x90 + MIDI_CHANNEL) as u8, note, velocity]
}

/// The packet that ends a note.
pub open spec fn note_off_packet(note: u8) -> Seq<u8> {
    seq![0x08u8, (0x80 + MIDI_CHANNEL) as u8, note, 0u8]
}

/// The packet that sets a controller's value.
pub open spec fn control_change_packet(cc: u8, value: u8) -> Seq<u8> {
    seq![0x0Bu8, (0xB0 + MIDI_CHANNEL) as u8, cc, value]
}

/// A USB MIDI event packet that carries a channel voice message: cable 0, the code index
/// that repeats the kind of message, a status byte, and two data bytes of seven bits.
pub open spec fn valid_packet(packet: Seq<u8>) -> bool {
    &&& packet.len() == 4
    &&& 0x8 <= packet[0] <= 0xE
    &&& packet[1] / 16 == packet[0]
    &&& packet[2] < 128
    &&& packet[3] < 128
}

/// A distance, moved to the nearer end of the playing range if it lies outside.
pub open spec fn clamped_mm(mm: u16) -> int {
    if mm < DISTANCE_MIN_MM {
        DISTANCE_MIN_MM as int
    } else if mm > DISTANCE_MAX_MM {
        DISTANCE_MAX_MM as int
    } else {
        mm as int
    }
}

/// The value of a distance: 127 at the near end of the playing range, and one less for
/// every full 127th part of the range beyond it.
pub open spec fn cc_of(mm: u16) -> int {
    127 - (clamped_mm(mm) - DISTANCE_MIN_MM) * 127 / (DISTANCE_MAX_MM - DISTANCE_MIN_MM)
}

/// Starts a note.
pub fn midi_note_on(note: u8, velocity: u8) -> (packet: [u8; 4])
    ensures
        packet@ == note_on_packet(note, velocity),
        packet@ == seq![0x09u8, 0x90u8, note, velocity],
{
    assert(0x90u8 | 0u8 == 0x90u8) by (bit_vector);
    let packet: [u8; 4] = [0x09, 0x90 | MIDI_CHANNEL, note, velocity];
    assert(packet@ =~= note_on_packet(note, velocity));
    packet
}

/// Ends a note.
pub fn midi_note_off(note: u8) -> (packet: [u8; 4])
    ensures
        packet@ == note_off_packet(note),
        packet@ == seq![0x08u8, 0x80u8, note, 0u8],
{
    assert(0x80u8 | 0u8 == 0x80u8) by (bit_vector);
    let packet: [u8; 4] = [0x08, 0x80 | MIDI_CHANNEL, note, 0];
    assert(packet@ =~= note_off_packet(note));
    packet
}

/// Sets the value of a controller.
pub fn midi_control_change(cc: u8, value: u8) -> (packet: [u8; 4])
    ensures
        packet@ == control_change_packet(cc, value),
        packet@ == seq![0x0Bu8, 0xB0u8, cc, value],
{
    assert(0xB0u8 | 0u8 == 0xB0u8) by (bit_vector);
    let packet: [u8; 4] = [0x0B, 0xB0 | MIDI_CHANNEL, cc, value];
    assert(packet@ =~= control_change_packet(cc, value));
    packet
}

/// Turns a measured distance into a controller value.
pub fn distance_to_cc(mm: u16) -> (cc: u8)
    ensures
        cc == cc_of(mm),
        cc <= 127,
        mm <= 40 ==> cc == 127,
        mm >= 450 ==> cc == 0,
        40 <= mm <= 450 ==> (127 - cc) * 410 <= (mm - 40) * 127 < (128 - cc) * 410,
{
    let clamped: u16 = mm.max(DISTANCE_MIN_MM).min(DISTANCE_MAX_MM);
    let span: u16 = DISTANCE_MAX_MM - DISTANCE_MIN_MM;
    let shifted: u16 = clamped - DISTANCE_MIN_MM;
    let steps: u32 = shifted as u32 * 127 / span as u32;
    assert(steps <= 127) by (nonlinear_arith)
        requires
            steps == shifted * 127 / span as int,
            shifted <= span,
            0 < span,
    ;
    127 - (steps as u8)
}

/// The nearer the hand, the higher the value.
pub proof fn nearer_is_not_lower(near: u16, far: u16)
    requires
        near <= far,
    ensures
        cc_of(near) >= cc_of(far),
{
}

/// The ends of the playing range, and everything beyond them, give the extreme values.
pub proof fn range_ends(mm: u16)
    ensures
        0 <= cc_of(mm) <= 127,
        mm <= 40 ==> cc_of(mm) == 127,
        mm >= 450 ==> cc_of(mm) == 0,
{
}

/// In the playing range, 410 millimetres long, the value falls from 127 in proportion to the
/// distance from the near end, rounded towards the higher value.
pub proof fn value_falls_in_proportion(mm: u16)
    requires
        40 <= mm <= 450,
    ensures
        (127 - cc_of(mm)) * 410 <= (mm - 40) * 127 < (128 - cc_of(mm)) * 410,
{
}

/// A millimetre moves the value by at most one.
pub proof fn millimetre_moves_at_most_one(mm: u16)
    requires
        mm < u16::MAX,
    ensures
        cc_of(mm) - 1 <= cc_of((mm + 1) as u16) <= cc_of(mm),
{
}

/// No value is left out: each of them belongs to a distance in the playing range.
pub proof fn every_value_is_reached(value: u8) -> (mm: u16)
    requires
        value <= 127,
    ensures
        40 <= mm <= 450,
        cc_of(mm) == value,
{
    (40 + ((127 - value) * 410 + 126) / 127) as u16
}

/// Messages made of seven bit data are valid packets.
pub proof fn packets_are_valid(number: u8, value: u8)
    requires
        number < 128,
        value < 128,
    ensures
        valid_packet(note_on_packet(number, value)),
        valid_packet(note_off_packet(number)),
        valid_packet(control_change_packet(number, value)),
{
}

/// A note on carries its note and its velocity, a note off its note and no velocity, a
/// control change its controller and its value, whatever they are; the first two bytes tell
/// the three kinds of message apart.
pub proof fn messages_carry_what_is_sent(number: u8, value: u8)
    ensures
        note_on_packet(number, value) =~= seq![0x09u8, 0x90u8, number, value],
        note_off_packet(number) =~= seq![0x08u8, 0x80u8, number, 0u8],
        control_change_packet(number, value) =~= seq![0x0Bu8, 0xB0u8, number, value],
{
}

/// Two messages of a kind are the same only if they say the same.
pub proof fn messages_are_told_apart(a: u8, x: u8, b: u8, y: u8)
    ensures
        note_on_packet(a, x) == note_on_packet(b, y) ==> a == b && x == y,
        note_off_packet(a) == note_off_packet(b) ==> a == b,
        control_change_packet(a, x) == control_change_packet(b, y) ==> a == b && x == y,
{
    messages_carry_what_is_sent(a, x);
    messages_carry_what_is_sent(b, y);
    assert(note_on_packet(a, x)[2] == a && note_on_packet(a, x)[3] == x);
    assert(note_on_packet(b, y)[2] == b && note_on_packet(b, y)[3] == y);
    assert(note_off_packet(a)[2] == a);
    assert(note_off_packet(b)[2] == b);
    assert(control_change_packet(a, x)[2] == a && control_change_packet(a, x)[3] == x);
    assert(control_change_packet(b, y)[2] == b && control_change_packet(b, y)[3] == y);
}

/// The buttons play the bass drum, the snare drum and the two hi-hats of a drum kit, all
/// with one velocity; the distance moves the brightness controller.
pub proof fn notes_of_the_buttons()
    ensures
        BUTTON_NOTES@ =~= seq![36u8, 38u8, 42u8, 46u8],
        BUTTON_VELOCITY == 110,
        CC_DISTANCE == 74,
        MIDI_CHANNEL == 0,
{
}

} // verus!
