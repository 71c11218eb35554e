//! What the controller remembers of its buttons and its distance sensor, and what it
//! decides from a new reading.
use crate::button::{Button, ButtonEvent};
use crate::midi::{cc_of, distance_to_cc, BUTTON_NOTES};
use vstd::prelude::*;

verus! {

/// The value that stands for no value: higher than any that a distance gives.
pub const NO_CC: u8 = 255;

/// The state of the controls.
pub struct Controls {
    buttons: [Button; 4],
    button_states: [bool; 4],
    last_cc: u8,
    last_display_cc: u8,
}

/// The state of the controls, mathematically.
#[verifier::ext_equal]
pub struct ControlsState {
    /// Which buttons are held.
    pub held: Seq<bool>,
    /// The value that was last sent to the host, whether or not it got through.
    pub last_cc: u8,
    /// The value for which the bar was last redrawn.
    pub last_display_cc: u8,
}

/// The change that a look at a button brings to light.
pub open spec fn change(held: Seq<bool>, index: int, now: bool) -> Option<ButtonEvent> {
    if now == held[index] {
        None
    } else if now {
        Some(ButtonEvent::Pressed { index: index as u8, note: BUTTON_NOTES[index] })
    } else {
        Some(ButtonEvent::Released { index: index as u8, note: BUTTON_NOTES[index] })
    }
}

/// Whether a value is far enough from the last one to be reported.
pub open spec fn moved(cc: int, last: int) -> bool {
    cc - last >= 2 || last - cc >= 2
}

impl View for Controls {
    type V = ControlsState;

    closed spec fn view(&self) -> ControlsState {
        ControlsState {
            held: self.button_states@,
            last_cc: self.last_cc,
            last_display_cc: self.last_display_cc,
        }
    }
}

impl Controls {
    /// Each button has its own place and note, and the recorded states are those that the
    /// buttons last reported.
    pub closed spec fn wf(self) -> bool {
        forall|i: int|
            0 <= i < 4 ==> #[trigger] self.buttons@[i] == (Button {
                index: i as u8,
                note: BUTTON_NOTES[i],
                previous: self.button_states@[i],
            })
    }

    /// No button held, no value.
    pub fn new() -> (controls: Self)
        ensures
            controls.wf(),
            controls@.held == seq![false, false, false, false],
            controls@.last_cc == NO_CC,
            controls@.last_display_cc == NO_CC,
    {
        let controls = Controls {
            buttons: [
                Button::new(0, BUTTON_NOTES[0]),
                Button::new(1, BUTTON_NOTES[1]),
                Button::new(2, BUTTON_NOTES[2]),
                Button::new(3, BUTTON_NOTES[3]),
            ],
            button_states: [false; 4],
            last_cc: NO_CC,
            last_display_cc: NO_CC,
        };
        assert(controls@.held =~= seq![false, false, false, false]);
        controls
    }

    /// Which buttons are held.
    pub fn button_states(&self) -> (states: [bool; 4])
        ensures
            states@ == self@.held,
    {
        self.button_states
    }

    /// The value that was last sent to the host, whether or not it got through.
    pub fn last_cc(&self) -> (cc: u8)
        ensures
            cc == self@.last_cc,
    {
        self.last_cc
    }

    /// Takes in whether a button is held now, and reports a change.
    pub fn poll_button(&mut self, index: u8, now: bool) -> (event: Option<ButtonEvent>)
        requires
            old(self).wf(),
            index < 4,
        ensures
            final(self).wf(),
            event == change(old(self)@.held, index as int, now),
            final(self)@ == (ControlsState {
                held: old(self)@.held.update(index as int, now),
                ..old(self)@
            }),
            event is Some <==> now != old(self)@.held[index as int],
            event is Some ==> event == Some(
                if now {
                    ButtonEvent::Pressed { index, note: BUTTON_NOTES[index as int] }
                } else {
                    ButtonEvent::Released { index, note: BUTTON_NOTES[index as int] }
                },
            ),
    {
        let i: usize = index as usize;
        let mut button: Button = self.buttons[i];
        let event = button.poll(now);
        self.buttons[i] = button;
        match event {
            Some(ButtonEvent::Pressed { .. }) => {
                self.button_states[i] = true;
            },
            Some(ButtonEvent::Released { .. }) => {
                self.button_states[i] = false;
            },
            None => {},
        }
        assert(self@.held =~= old(self)@.held.update(index as int, now));
        event
    }

    /// Takes in a measured distance, and gives the value to report if it has moved by two
    /// or more.
    pub fn poll_distance(&mut self, mm: u16) -> (report: Option<u8>)
        requires
            old(self).wf(),
        ensures
            final(self).wf(),
            report == (if moved(cc_of(mm), old(self)@.last_cc as int) {
                Some(cc_of(mm) as u8)
            } else {
                None
            }),
            final(self)@ == (ControlsState {
                last_cc: if moved(cc_of(mm), old(self)@.last_cc as int) {
                    cc_of(mm) as u8
                } else {
                    old(self)@.last_cc
                },
                ..old(self)@
            }),
            report is Some <==> (cc_of(mm) >= old(self)@.last_cc + 2 || cc_of(mm) + 2 <= old(
                self,
            )@.last_cc),
            report matches Some(cc) ==> cc == cc_of(mm) && final(self)@.last_cc == cc,
            report is None ==> final(self)@.last_cc == old(self)@.last_cc,
            cc_of(mm) - 1 <= final(self)@.last_cc <= cc_of(mm) + 1,
    {
        let cc: u8 = distance_to_cc(mm);
        let step: u8 = if cc >= self.last_cc {
            cc - self.last_cc
        } else {
            self.last_cc - cc
        };
        if step >= 2 {
            self.last_cc = cc;
            Some(cc)
        } else {
            None
        }
    }

    /// Gives the value for which the bar is to be redrawn, if it is not the one for which
    /// it was redrawn last.
    pub fn poll_display(&mut self) -> (redraw: Option<u8>)
        requires
            old(self).wf(),
        ensures
            final(self).wf(),
            redraw == (if old(self)@.last_cc != old(self)@.last_display_cc {
                Some(old(self)@.last_cc)
            } else {
                None
            }),
            final(self)@ == (ControlsState { last_display_cc: old(self)@.last_cc, ..old(self)@ }),
    {
        if self.last_cc != self.last_display_cc {
            self.last_display_cc = self.last_cc;
            Some(self.last_cc)
        } else {
            None
        }
    }
}

/// The first distance is always reported.
pub proof fn first_distance_is_reported(mm: u16)
    ensures
        NO_CC == 255,
        moved(cc_of(mm), NO_CC as int),
        moved(cc_of(mm), 255),
{
}

/// A hand that keeps still is quiet: a distance that was just taken in is not reported
/// again.
pub proof fn still_hand_is_quiet(mm: u16, last: int)
    ensures
        ({
            let next = if moved(cc_of(mm), last) {
                cc_of(mm)
            } else {
                last
            };
            !moved(cc_of(mm), next)
        }),
{
}

/// A value is reported exactly if it lies two or more from the last one, above or below,
/// however far; so after a look at the distance the remembered value is off by one at most.
pub proof fn two_apart_is_reported(cc: int, last: int)
    ensures
        moved(cc, last) <==> (cc >= last + 2 || cc <= last - 2),
        moved(cc, last) <==> moved(last, cc),
        ({
            let remembered = if moved(cc, last) {
                cc
            } else {
                last
            };
            cc - 1 <= remembered <= cc + 1
        }),
{
}

/// A look at a button brings something to light exactly if the button is in another
/// position than recorded. It is a press if the button is held and a release if not, of that
/// button, with its note: 36, 38, 42 and 46 in order.
pub proof fn change_tells_the_position(held: Seq<bool>, index: int, now: bool)
    requires
        0 <= index < 4,
    ensures
        change(held, index, now) is Some <==> now != held[index],
        change(held, index, now) matches Some(event) ==> (event is Pressed <==> now),
        change(held, index, now) matches Some(ButtonEvent::Pressed { index: i, note }) ==> i
            == index && note == seq![36u8, 38u8, 42u8, 46u8][index],
        change(held, index, now) matches Some(ButtonEvent::Released { index: i, note }) ==> i
            == index && note == seq![36u8, 38u8, 42u8, 46u8][index],
{
}

} // verus!
