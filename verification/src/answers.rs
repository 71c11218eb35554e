//! What the controller makes of each answer, step by step and in plain numbers.
use crate::buzzer::{click_beep_ops, startup_beep_ops};
use crate::controller::{Action, ControllerState, Event, Phase, Request};
use crate::controls::ControlsState;
use crate::dashboard::{button_steps, cc_steps, dashboard_steps, init_steps};
use crate::lcd::bus;
use crate::midi::{cc_of, messages_carry_what_is_sent};
use crate::usb::EndpointError;
use vstd::prelude::*;

verus! {

/// The note of a button.
pub open spec fn note_of(index: int) -> u8 {
    if index == 0 {
        36
    } else if index == 1 {
        38
    } else if index == 2 {
        42
    } else {
        46
    }
}

/// From `before` on the bar is dealt with: if the value is not the one that was last drawn,
/// the bar is drawn for it, and then comes the pause of six milliseconds; if it is, the pause
/// comes at once. After the pause the first button is looked at.
pub open spec fn goes_on_with_bar(before: ControllerState, after: ControllerState) -> bool {
    let controls = ControlsState {
        last_display_cc: before.controls.last_cc,
        ..before.controls
    };
    let pause = if before.controls.last_cc != before.controls.last_display_cc {
        after.next(Event::Done)
    } else {
        after
    };
    &&& before.controls.last_cc != before.controls.last_display_cc ==> after.request()
        == Request::Display(cc_steps(before.controls.last_cc))
    &&& after.controls == controls
    &&& pause.request() == Request::Wait(6)
    &&& pause.controls == controls
    &&& pause.next(Event::Done).request() == Request::Sample(0)
    &&& pause.next(Event::Done).controls == controls
    &&& pause.next(Event::Done).has_sensor == before.has_sensor
}

/// From `before` on the buttons behind this one are dealt with: the next one is looked at,
/// or behind the last one the distance is measured, or without a sensor the bar is dealt
/// with.
pub open spec fn goes_on_after_button(
    before: ControllerState,
    after: ControllerState,
    index: int,
) -> bool {
    if index < 3 {
        after.request() == Request::Sample((index + 1) as u8) && after.controls == before.controls
            && after.has_sensor == before.has_sensor
    } else if before.has_sensor {
        after.request() == Request::Measure && after.controls == before.controls
            && after.has_sensor
    } else {
        goes_on_with_bar(before, after)
    }
}

/// From `before` on a packet that was lost is dealt with: the notes are silenced from the
/// first one on if the host is gone, and everything stops if the packet was too long. Nothing
/// is forgotten.
pub open spec fn goes_on_after_loss(
    before: ControllerState,
    after: ControllerState,
    error: EndpointError,
) -> bool {
    &&& after.controls == before.controls
    &&& after.has_sensor == before.has_sensor
    &&& error is Disabled ==> after.phase == Phase::Silence(0) && after.request() == Request::Send(
        seq![0x08u8, 0x80u8, 36u8, 0u8],
    )
    &&& error is BufferOverflow ==> after.request() == Request::Halt
}

/// A button that is found held and was not is recorded; its tile is drawn as held, the
/// buzzer clicks, its note is started with velocity 110, and then the next one's turn comes.
pub proof fn press_is_shown_clicked_and_sent(
    state: ControllerState,
    index: u8,
    error: EndpointError,
)
    requires
        state.valid(),
        state.phase == Phase::Sample(index),
        !state.controls.held[index as int],
    ensures
        ({
            let drawing = state.next(Event::Level(true));
            let clicking = drawing.next(Event::Done);
            let sending = clicking.next(Event::Done);
            let controls = ControlsState {
                held: state.controls.held.update(index as int, true),
                ..state.controls
            };
            &&& state.request() == Request::Sample(index)
            &&& drawing.request() == Request::Display(button_steps(index, true))
            &&& clicking.request() == Request::Buzz(click_beep_ops())
            &&& sending.request() == Request::Send(
                seq![0x09u8, 0x90u8, note_of(index as int), 110u8],
            )
            &&& drawing.controls == controls
            &&& clicking.controls == controls
            &&& sending.controls == controls
            &&& sending.has_sensor == state.has_sensor
            &&& goes_on_after_button(sending, sending.next(Event::Done), index as int)
            &&& goes_on_after_loss(sending, sending.next(Event::SendFailed(error)), error)
        }),
{
    messages_carry_what_is_sent(note_of(index as int), 110);
    messages_carry_what_is_sent(36, 0);
}

/// A button that is found not held and was is recorded; its tile is drawn as not held, its
/// note is ended, without a click, and then the next one's turn comes.
pub proof fn release_is_shown_and_sent(state: ControllerState, index: u8, error: EndpointError)
    requires
        state.valid(),
        state.phase == Phase::Sample(index),
        state.controls.held[index as int],
    ensures
        ({
            let drawing = state.next(Event::Level(false));
            let sending = drawing.next(Event::Done);
            let controls = ControlsState {
                held: state.controls.held.update(index as int, false),
                ..state.controls
            };
            &&& drawing.request() == Request::Display(button_steps(index, false))
            &&& sending.request() == Request::Send(
                seq![0x08u8, 0x80u8, note_of(index as int), 0u8],
            )
            &&& drawing.controls == controls
            &&& sending.controls == controls
            &&& sending.has_sensor == state.has_sensor
            &&& goes_on_after_button(sending, sending.next(Event::Done), index as int)
            &&& goes_on_after_loss(sending, sending.next(Event::SendFailed(error)), error)
        }),
{
    messages_carry_what_is_sent(note_of(index as int), 0);
    messages_carry_what_is_sent(36, 0);
}

/// A button that is found as it was changes nothing, and the next one's turn comes.
pub proof fn unchanged_button_is_passed_over(state: ControllerState, index: u8)
    requires
        state.valid(),
        state.phase == Phase::Sample(index),
    ensures
        goes_on_after_button(
            state,
            state.next(Event::Level(state.controls.held[index as int])),
            index as int,
        ),
{
    let held = state.controls.held;
    assert(held.update(index as int, held[index as int]) =~= held);
}

/// A measured distance whose value lies two or more from the last one is remembered and
/// sent, however far it lies; then the bar is dealt with. One that lies nearer, and a
/// measurement that fails, change nothing, and the bar is dealt with at once.
pub proof fn moved_value_is_sent(state: ControllerState, mm: u16, error: EndpointError)
    requires
        state.valid(),
        state.phase is Measure,
    ensures
        ({
            let last = state.controls.last_cc as int;
            let after = state.next(Event::Range(Some(mm)));
            &&& cc_of(mm) >= last + 2 || cc_of(mm) <= last - 2 ==> {
                &&& after.request() == Request::Send(
                    seq![0x0Bu8, 0xB0u8, 74u8, cc_of(mm) as u8],
                )
                &&& after.controls == (ControlsState {
                    last_cc: cc_of(mm) as u8,
                    ..state.controls
                })
                &&& after.has_sensor
                &&& goes_on_with_bar(after, after.next(Event::Done))
                &&& goes_on_after_loss(after, after.next(Event::SendFailed(error)), error)
            }
            &&& last - 1 <= cc_of(mm) <= last + 1 ==> goes_on_with_bar(state, after)
            &&& goes_on_with_bar(state, state.next(Event::Range(None)))
        }),
{
    messages_carry_what_is_sent(74, cc_of(mm) as u8);
    messages_carry_what_is_sent(36, 0);
}

/// While the notes are silenced, each packet ends the note of one button; behind the last
/// one, or when the host is gone, a host is awaited, and a packet that was too long stops
/// everything. Nothing is forgotten.
pub proof fn silence_goes_through_the_notes(state: ControllerState, index: u8)
    requires
        state.valid(),
        state.phase == Phase::Silence(index),
    ensures
        state.request() == Request::Send(seq![0x08u8, 0x80u8, note_of(index as int), 0u8]),
        index < 3 ==> state.next(Event::Done) == (ControllerState {
            phase: Phase::Silence((index + 1) as u8),
            ..state
        }),
        index == 3 ==> state.next(Event::Done) == (ControllerState {
            phase: Phase::Connect,
            ..state
        }),
        state.next(Event::SendFailed(EndpointError::Disabled)) == (ControllerState {
            phase: Phase::Connect,
            ..state
        }),
        state.next(Event::SendFailed(EndpointError::BufferOverflow)) == (ControllerState {
            phase: Phase::Halted,
            ..state
        }),
{
    messages_carry_what_is_sent(note_of(index as int), 0);
}

/// A host is awaited, greeted with two tones, and shown the dashboard with the recorded
/// button states and the remembered value; then the first button is looked at. Nothing is
/// forgotten.
pub proof fn host_is_awaited_and_greeted(state: ControllerState)
    requires
        state.phase is Connect,
    ensures
        ({
            let greeting = state.next(Event::Done);
            let drawing = greeting.next(Event::Done);
            let looking = drawing.next(Event::Done);
            &&& state.request() == Request::AwaitHost
            &&& greeting.request() == Request::Buzz(startup_beep_ops())
            &&& drawing.request() == Request::Display(
                dashboard_steps(state.controls.held, state.controls.last_cc),
            )
            &&& looking == (ControllerState { phase: Phase::Sample(0), ..state })
            &&& looking.request() == Request::Sample(0)
        }),
{
}

/// After switching on, the display is brought up and drawn, the sensor is switched off for
/// ten milliseconds and on, and after fifty more it is looked for at its address. If it
/// answers it is set up, and if that succeeds it gets 33 milliseconds for a measurement and
/// is used from then on. Then a host is awaited, with or without a sensor.
pub proof fn board_is_brought_up(state: ControllerState)
    requires
        state.phase is InitDisplay,
        !state.has_sensor,
    ensures
        ({
            let drawing = state.next(Event::Done);
            let off = drawing.next(Event::Done);
            let off_wait = off.next(Event::Done);
            let on = off_wait.next(Event::Done);
            let on_wait = on.next(Event::Done);
            let probing = on_wait.next(Event::Done);
            let opening = probing.next(Event::Answered(true));
            let setting = opening.next(Event::Answered(true));
            let waiting = ControllerState { phase: Phase::Connect, ..state };
            &&& state.request() == Request::Display(init_steps())
            &&& drawing.request() == Request::Display(
                dashboard_steps(seq![false, false, false, false], 0),
            )
            &&& off.request() == Request::SensorPower(false)
            &&& off_wait.request() == Request::Wait(10)
            &&& on.request() == Request::SensorPower(true)
            &&& on_wait.request() == Request::Wait(50)
            &&& probing.request() == (Request::Probe { address: 0x29, register: 0xC0 })
            &&& probing.next(Event::Answered(false)) == waiting
            &&& opening.request() == Request::OpenSensor
            &&& opening.next(Event::Answered(false)) == waiting
            &&& setting.request() == Request::SetTimingBudget(33_000)
            &&& setting.next(Event::Done) == (ControllerState { has_sensor: true, ..waiting })
        }),
{
}

/// An answer that does not fit what was asked for changes nothing.
pub proof fn unfit_answers_change_nothing(state: ControllerState, event: Event)
    requires
        !state.answered_by(event),
    ensures
        state.next(event) == state,
{
}

/// Actions mean what they say.
pub proof fn actions_mean_what_they_say(action: Action)
    ensures
        match action {
            Action::Display(ops) => action@ == Request::Display(bus(ops@)),
            Action::Buzz(ops) => action@ == Request::Buzz(ops@),
            Action::SensorPower(on) => action@ == Request::SensorPower(on),
            Action::Wait(ms) => action@ == Request::Wait(ms),
            Action::Probe { address, register } => action@ == (Request::Probe {
                address,
                register,
            }),
            Action::OpenSensor => action@ == Request::OpenSensor,
            Action::SetTimingBudget(us) => action@ == Request::SetTimingBudget(us),
            Action::AwaitHost => action@ == Request::AwaitHost,
            Action::Sample(index) => action@ == Request::Sample(index),
            Action::Send(packet) => action@ == Request::Send(packet@),
            Action::Measure => action@ == Request::Measure,
            Action::Halt => action@ == Request::Halt,
        },
{
}

} // verus!
