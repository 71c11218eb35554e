//! What the host hears: the notes that sound are those of the held buttons.
use crate::controller::{event_index, ControllerState, Event, Phase, Request};
use crate::midi::{note_off_packet, BUTTON_NOTES};
use crate::run::{actions, round_looks_at_everything, state_after, whole_round, Readings};
use vstd::prelude::*;

verus! {

/// How loud each note sounds at the host, as a velocity, after it has received a packet; a
/// note that does not sound has the velocity zero.
pub open spec fn hears(sounding: spec_fn(u8) -> u8, packet: Seq<u8>) -> spec_fn(u8) -> u8 {
    if packet[0] == 0x09 && packet[1] == 0x90 {
        |note: u8|
            if note == packet[2] {
                packet[3]
            } else {
                sounding(note)
            }
    } else if packet[0] == 0x08 && packet[1] == 0x80 {
        |note: u8|
            if note == packet[2] {
                0
            } else {
                sounding(note)
            }
    } else {
        sounding
    }
}

/// How loud each note sounds after an action of the board whose packet, if any, gets through.
pub open spec fn heard(sounding: spec_fn(u8) -> u8, request: Request) -> spec_fn(u8) -> u8 {
    match request {
        Request::Send(packet) => hears(sounding, packet),
        _ => sounding,
    }
}

/// How loud each note sounds after a sequence of actions.
pub open spec fn heard_all(
    sounding: spec_fn(u8) -> u8,
    requests: Seq<Request>,
) -> spec_fn(u8) -> u8
    decreases requests.len(),
{
    if requests.len() == 0 {
        sounding
    } else {
        heard(heard_all(sounding, requests.drop_last()), requests.last())
    }
}

/// Whether the change of a button is recorded and not yet reported.
pub open spec fn unreported(state: ControllerState, index: int) -> bool {
    match state.phase {
        Phase::ShowTile(event) => event_index(event) == index,
        Phase::Click(event) => event_index(event) == index,
        Phase::SendNote(event) => event_index(event) == index,
        _ => false,
    }
}

/// The notes of the held buttons sound with velocity 110 and those of the others do not,
/// except that a change that has not been reported is not heard yet.
pub open spec fn in_tune(state: ControllerState, sounding: spec_fn(u8) -> u8) -> bool {
    forall|i: int|
        0 <= i < 4 ==> sounding(#[trigger] BUTTON_NOTES[i]) == if state.controls.held[i]
            != unreported(state, i) {
            110u8
        } else {
            0
        }
}

/// While the controls are looked at and every packet gets through, the host stays in tune,
/// and no note but those of the buttons is touched.
pub proof fn host_follows(
    state: ControllerState,
    sounding: spec_fn(u8) -> u8,
    event: Event,
)
    requires
        state.valid(),
        state.polling(),
        state.answered_by(event),
        !(event is SendFailed),
        in_tune(state, sounding),
    ensures
        in_tune(state.next(event), heard(sounding, state.request())),
        forall|note: u8|
            note != 36 && note != 38 && note != 42 && note != 46 ==> #[trigger] heard(
                sounding,
                state.request(),
            )(note) == sounding(note),
{
    let after = heard(sounding, state.request());
    let next = state.next(event);
    assert forall|i: int| 0 <= i < 4 implies after(#[trigger] BUTTON_NOTES[i]) == (
    if next.controls.held[i] != unreported(next, i) {
        110u8
    } else {
        0
    }) by {
        assert(sounding(BUTTON_NOTES[i]) == if state.controls.held[i] != unreported(state, i) {
            110u8
        } else {
            0
        });
    }
}

proof fn lemma_host_run(
    state: ControllerState,
    readings: Readings,
    sounding: spec_fn(u8) -> u8,
    n: nat,
)
    requires
        state.valid(),
        state.polling(),
        in_tune(state, sounding),
    ensures
        state_after(state, readings, n).valid(),
        state_after(state, readings, n).polling(),
        in_tune(
            state_after(state, readings, n),
            heard_all(sounding, actions(state, readings, n)),
        ),
        forall|note: u8|
            note != 36 && note != 38 && note != 42 && note != 46 ==> #[trigger] heard_all(
                sounding,
                actions(state, readings, n),
            )(note) == sounding(note),
    decreases n,
{
    if n > 0 {
        let k = (n - 1) as nat;
        lemma_host_run(state, readings, sounding, k);
        let before = state_after(state, readings, k);
        let event = readings.answer(before);
        host_follows(before, heard_all(sounding, actions(state, readings, k)), event);
        assert(actions(state, readings, n).drop_last() =~= actions(state, readings, k));
    }
}

/// The notes 36, 38, 42 and 46 sound with velocity 110, each if its button is held, and do
/// not sound otherwise.
pub open spec fn plays(sounding: spec_fn(u8) -> u8, held: Seq<bool>) -> bool {
    &&& sounding(36) == if held[0] { 110u8 } else { 0u8 }
    &&& sounding(38) == if held[1] { 110u8 } else { 0u8 }
    &&& sounding(42) == if held[2] { 110u8 } else { 0u8 }
    &&& sounding(46) == if held[3] { 110u8 } else { 0u8 }
}

/// After a round in which every packet gets through, the notes of the buttons that were
/// found held sound with velocity 110, those of the others do not, and all other notes are
/// as they were.
pub proof fn round_leaves_host_in_tune(
    state: ControllerState,
    readings: Readings,
    sounding: spec_fn(u8) -> u8,
)
    requires
        state.valid(),
        state.phase == Phase::Sample(0),
        readings.levels.len() == 4,
        plays(sounding, state.controls.held),
    ensures
        plays(heard_all(sounding, whole_round(state, readings)), readings.levels),
        forall|note: u8|
            note != 36 && note != 38 && note != 42 && note != 46 ==> #[trigger] heard_all(
                sounding,
                whole_round(state, readings),
            )(note) == sounding(note),
{
    assert(BUTTON_NOTES[0] == 36 && BUTTON_NOTES[1] == 38 && BUTTON_NOTES[2] == 42
        && BUTTON_NOTES[3] == 46);
    round_looks_at_everything(state, readings);
    lemma_host_run(state, readings, sounding, whole_round(state, readings).len());
}

/// When all the packets that silence the notes get through, no note of a button sounds.
pub proof fn silence_is_heard(sounding: spec_fn(u8) -> u8)
    ensures
        ({
            let after = heard_all(
                sounding,
                Seq::new(4, |j: int| Request::Send(note_off_packet(BUTTON_NOTES[j]))),
            );
            after(36) == 0 && after(38) == 0 && after(42) == 0 && after(46) == 0
        }),
{
    let all = Seq::new(4, |j: int| Request::Send(note_off_packet(BUTTON_NOTES[j])));
    reveal_with_fuel(heard_all, 5);
    assert(all.drop_last().drop_last().drop_last().drop_last().len() == 0);
    assert(all.last() == Request::Send(note_off_packet(BUTTON_NOTES[3])));
    assert(all.drop_last().last() == Request::Send(note_off_packet(BUTTON_NOTES[2])));
    assert(all.drop_last().drop_last().last() == Request::Send(note_off_packet(BUTTON_NOTES[1])));
    assert(all.drop_last().drop_last().drop_last().last() == Request::Send(
        note_off_packet(BUTTON_NOTES[0]),
    ));
}

} // verus!
