//! The buttons.
use vstd::prelude::*;

verus! {

/// A button, with its place on the dashboard, its note, and whether it was held when it
/// was last looked at.
#[derive(Debug, Clone, Copy, PartialEq, Eq)]
pub struct Button {
    pub index: u8,
    pub note: u8,
    pub previous: bool,
}

/// What has happened to a button.
#[derive(Debug, Clone, Copy, PartialEq, Eq)]
pub enum ButtonEvent {
    Pressed { index: u8, note: u8 },
    Released { index: u8, note: u8 },
}

/// What has happened to a button that is found held (`now`) or not.
pub open spec fn button_event(button: Button, now: bool) -> Option<ButtonEvent> {
    if now == button.previous {
        None
    } else if now {
        Some(ButtonEvent::Pressed { index: button.index, note: button.note })
    } else {
        Some(ButtonEvent::Released { index: button.index, note: button.note })
    }
}

impl Button {
    /// A button that has not been held yet.
    pub fn new(index: u8, note: u8) -> (button: Self)
        ensures
            button == (Button { index, note, previous: false }),
    {
        Button { index, note, previous: false }
    }

    /// Takes in whether the button is held now, and reports a change.
    pub fn poll(&mut self, now: bool) -> (event: Option<ButtonEvent>)
        ensures
            event == button_event(*old(self), now),
            *final(self) == (Button { previous: now, ..*old(self) }),
            event is Some <==> now != old(self).previous,
            event matches Some(ButtonEvent::Pressed { index, note }) ==> now && index == old(
                self,
            ).index && note == old(self).note,
            event matches Some(ButtonEvent::Released { index, note }) ==> !now && index == old(
                self,
            ).index && note == old(self).note,
    {
        if now == self.previous {
            return None;
        }
        self.previous = now;
        if now {
            Some(ButtonEvent::Pressed { index: self.index, note: self.note })
        } else {
            Some(ButtonEvent::Released { index: self.index, note: self.note })
        }
    }
}

/// A button reports something exactly if it is found in another position than before: a
/// press if it is found held, a release if it is not, with its own place and note.
pub proof fn report_tells_the_position(button: Button, now: bool)
    ensures
        button_event(button, now) is Some <==> now != button.previous,
        now && !button.previous ==> button_event(button, now) == Some(
            ButtonEvent::Pressed { index: button.index, note: button.note },
        ),
        !now && button.previous ==> button_event(button, now) == Some(
            ButtonEvent::Released { index: button.index, note: button.note },
        ),
{
}

/// A button reports a change exactly once: looked at again in the same position, it
/// reports nothing.
pub proof fn change_is_reported_once(button: Button, now: bool)
    ensures
        button_event(Button { previous: now, ..button }, now) is None,
{
}

/// Whether a button is held after a sequence of looks.
pub open spec fn held_after(button: Button, looks: Seq<bool>) -> bool {
    if looks.len() == 0 {
        button.previous
    } else {
        looks.last()
    }
}

/// What a button reports in a sequence of looks.
pub open spec fn reports(button: Button, looks: Seq<bool>) -> Seq<ButtonEvent>
    decreases looks.len(),
{
    if looks.len() == 0 {
        seq![]
    } else {
        let before = looks.drop_last();
        match button_event(
            Button { previous: held_after(button, before), ..button },
            looks.last(),
        ) {
            None => reports(button, before),
            Some(event) => reports(button, before).push(event),
        }
    }
}

/// However often a button is looked at, its reports take turns: after a press comes a
/// release, and the other way round. The first one is a press if the button was not held,
/// and the last one tells whether it is held.
pub proof fn presses_and_releases_alternate(button: Button, looks: Seq<bool>)
    ensures
        forall|i: int, j: int|
            #![trigger reports(button, looks)[i], reports(button, looks)[j]]
            0 <= i && j == i + 1 && j < reports(button, looks).len() ==> (reports(
                button,
                looks,
            )[i] is Pressed <==> reports(button, looks)[j] is Released),
        reports(button, looks).len() > 0 ==> (reports(button, looks)[0] is Pressed
            <==> !button.previous),
        reports(button, looks).len() > 0 ==> (reports(button, looks).last() is Pressed
            <==> held_after(button, looks)),
        reports(button, looks).len() == 0 ==> held_after(button, looks) == button.previous,
    decreases looks.len(),
{
    if looks.len() > 0 {
        presses_and_releases_alternate(button, looks.drop_last());
    }
}

} // verus!
