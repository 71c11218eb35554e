//! The controller: what the board is to do next, given how it answered so far.
//!
//! The board asks for the next [`Action`], performs it, and tells the controller about the
//! outcome with an [`Event`]. The controller brings up the display and the sensor, waits
//! for a host, and then looks at the controls over and over, until a packet does not get
//! through; then it silences its notes and waits for a host again.
use crate::button::ButtonEvent;
use crate::buzzer::{click_beep, click_beep_ops, startup_beep, startup_beep_ops, BuzzerOp};
use crate::controls::{change, moved, Controls, ControlsState, NO_CC};
use crate::dashboard::{button_steps, cc_steps, dashboard_steps, init_steps};
use crate::lcd::{bus, BusStep, Display, LcdOp};
use crate::midi::{
    cc_of, control_change_packet, midi_control_change, midi_note_off, midi_note_on,
    note_off_packet, note_on_packet, valid_packet, BUTTON_NOTES, BUTTON_VELOCITY, CC_DISTANCE,
};
use crate::usb::{Disconnected, EndpointError};
use vstd::prelude::*;

verus! {

/// The bus address of the distance sensor.
pub const SENSOR_ADDRESS: u8 = 0x29;

/// The register that holds the sensor's model number.
pub const SENSOR_MODEL_REGISTER: u8 = 0xC0;

/// The time that the sensor may take for a measurement, in microseconds.
pub const SENSOR_BUDGET_US: u32 = 33_000;

/// The pause between two looks at the controls, in milliseconds.
pub const POLL_PAUSE_MS: u64 = 6;

/// Something for the board to do.
#[derive(Debug, PartialEq, Eq)]
pub enum Action {
    /// Perform these operations on the display's lines.
    Display(Vec<LcdOp>),
    /// Perform these operations on the buzzer's pin.
    Buzz(Vec<BuzzerOp>),
    /// Drive the sensor's shutdown line high (`true`, on) or low.
    SensorPower(bool),
    /// Wait this many milliseconds.
    Wait(u64),
    /// Try to read one byte from this register of the device at this address.
    Probe { address: u8, register: u8 },
    /// Set up the sensor.
    OpenSensor,
    /// Set the sensor's time for a measurement, in microseconds.
    SetTimingBudget(u32),
    /// Wait until a host has connected.
    AwaitHost,
    /// Look whether the pin of this button is low.
    Sample(u8),
    /// Send this packet to the host.
    Send([u8; 4]),
    /// Measure the distance.
    Measure,
    /// Stop for good.
    Halt,
}

/// The mathematical counterpart of [`Action`].
pub enum Request {
    Display(Seq<BusStep>),
    Buzz(Seq<BuzzerOp>),
    SensorPower(bool),
    Wait(u64),
    Probe { address: u8, register: u8 },
    OpenSensor,
    SetTimingBudget(u32),
    AwaitHost,
    Sample(u8),
    Send(Seq<u8>),
    Measure,
    Halt,
}

impl View for Action {
    type V = Request;

    open spec fn view(&self) -> Request {
        match self {
            Action::Display(ops) => Request::Display(bus(ops@)),
            Action::Buzz(ops) => Request::Buzz(ops@),
            Action::SensorPower(on) => Request::SensorPower(*on),
            Action::Wait(ms) => Request::Wait(*ms),
            Action::Probe { address, register } => Request::Probe {
                address: *address,
                register: *register,
            },
            Action::OpenSensor => Request::OpenSensor,
            Action::SetTimingBudget(us) => Request::SetTimingBudget(*us),
            Action::AwaitHost => Request::AwaitHost,
            Action::Sample(index) => Request::Sample(*index),
            Action::Send(packet) => Request::Send(packet@),
            Action::Measure => Request::Measure,
            Action::Halt => Request::Halt,
        }
    }
}

/// How the board answers an action.
#[derive(Debug, Clone, Copy, PartialEq, Eq)]
pub enum Event {
    /// It is done; a packet has been sent.
    Done,
    /// The device that was probed, or set up, has answered (`true`) or not.
    Answered(bool),
    /// The button's pin is low (`true`), which means that the button is held, or not.
    Level(bool),
    /// The distance in millimetres, if the measurement succeeded.
    Range(Option<u16>),
    /// The packet could not be sent.
    SendFailed(EndpointError),
}

/// Where the controller stands.
#[derive(Debug, Clone, Copy, PartialEq, Eq)]
pub enum Phase {
    /// Bring up the display.
    InitDisplay,
    /// Draw the first dashboard.
    ShowStartup,
    /// Switch the sensor off, wait, switch it on, wait.
    SensorOff,
    SensorOffWait,
    SensorOn,
    SensorOnWait,
    /// Look for the sensor, set it up, and set its time for a measurement.
    ProbeSensor,
    OpenSensor,
    SetBudget,
    /// Wait for a host, greet it, and draw the dashboard.
    Connect,
    Greet,
    ShowDashboard,
    /// Look at a button.
    Sample(u8),
    /// Redraw the tile of a button that has changed, click if it was pressed, and report it.
    ShowTile(ButtonEvent),
    Click(ButtonEvent),
    SendNote(ButtonEvent),
    /// Measure the distance, and report a value.
    Measure,
    SendCc(u8),
    /// Redraw the bar for a value.
    ShowBar(u8),
    /// Pause before the next look at the controls.
    Rest,
    /// End the note of a button, and of those behind it.
    Silence(u8),
    /// Stopped.
    Halted,
}

/// The controller's state, mathematically.
#[verifier::ext_equal]
pub struct ControllerState {
    pub phase: Phase,
    pub controls: ControlsState,
    pub has_sensor: bool,
}

/// The button that has changed.
pub open spec fn event_index(event: ButtonEvent) -> u8 {
    match event {
        ButtonEvent::Pressed { index, .. } => index,
        ButtonEvent::Released { index, .. } => index,
    }
}

/// The note of the button that has changed.
pub open spec fn event_note(event: ButtonEvent) -> u8 {
    match event {
        ButtonEvent::Pressed { note, .. } => note,
        ButtonEvent::Released { note, .. } => note,
    }
}

/// The packet that reports a change of a button.
pub open spec fn event_packet(event: ButtonEvent) -> Seq<u8> {
    match event {
        ButtonEvent::Pressed { note, .. } => note_on_packet(note, BUTTON_VELOCITY),
        ButtonEvent::Released { note, .. } => note_off_packet(note),
    }
}

impl ControllerState {
    /// What the board is to do in this state.
    pub open spec fn request(self) -> Request {
        match self.phase {
            Phase::InitDisplay => Request::Display(init_steps()),
            Phase::ShowStartup => Request::Display(
                dashboard_steps(seq![false, false, false, false], 0),
            ),
            Phase::SensorOff => Request::SensorPower(false),
            Phase::SensorOffWait => Request::Wait(10),
            Phase::SensorOn => Request::SensorPower(true),
            Phase::SensorOnWait => Request::Wait(50),
            Phase::ProbeSensor => Request::Probe {
                address: SENSOR_ADDRESS,
                register: SENSOR_MODEL_REGISTER,
            },
            Phase::OpenSensor => Request::OpenSensor,
            Phase::SetBudget => Request::SetTimingBudget(SENSOR_BUDGET_US),
            Phase::Connect => Request::AwaitHost,
            Phase::Greet => Request::Buzz(startup_beep_ops()),
            Phase::ShowDashboard => Request::Display(
                dashboard_steps(self.controls.held, self.controls.last_cc),
            ),
            Phase::Sample(index) => Request::Sample(index),
            Phase::ShowTile(event) => Request::Display(
                button_steps(event_index(event), event is Pressed),
            ),
            Phase::Click(_) => Request::Buzz(click_beep_ops()),
            Phase::SendNote(event) => Request::Send(event_packet(event)),
            Phase::Measure => Request::Measure,
            Phase::SendCc(cc) => Request::Send(control_change_packet(CC_DISTANCE, cc)),
            Phase::ShowBar(cc) => Request::Display(cc_steps(cc)),
            Phase::Rest => Request::Wait(POLL_PAUSE_MS),
            Phase::Silence(index) => Request::Send(note_off_packet(BUTTON_NOTES[index as int])),
            Phase::Halted => Request::Halt,
        }
    }

    /// The same state in another phase.
    pub open spec fn at(self, phase: Phase) -> ControllerState {
        ControllerState { phase, ..self }
    }

    /// After the button before this one: this button, or the sensor, or the bar.
    pub open spec fn at_button(self, index: int) -> ControllerState {
        if index < 4 {
            self.at(Phase::Sample(index as u8))
        } else if self.has_sensor {
            self.at(Phase::Measure)
        } else {
            self.at_display()
        }
    }

    /// After the sensor: redraw the bar if the value is not the one that was last drawn.
    pub open spec fn at_display(self) -> ControllerState {
        let controls = ControlsState {
            last_display_cc: self.controls.last_cc,
            ..self.controls
        };
        ControllerState {
            phase: if self.controls.last_cc != self.controls.last_display_cc {
                Phase::ShowBar(self.controls.last_cc)
            } else {
                Phase::Rest
            },
            controls,
            ..self
        }
    }

    /// After a packet that did not get through: silence the notes if the host is gone.
    pub open spec fn at_failure(self, error: EndpointError) -> ControllerState {
        match error {
            EndpointError::Disabled => self.at(Phase::Silence(0)),
            EndpointError::BufferOverflow => self.at(Phase::Halted),
        }
    }

    /// After a look at a button.
    pub open spec fn at_level(self, index: u8, now: bool) -> ControllerState {
        let looked = ControllerState {
            controls: ControlsState {
                held: self.controls.held.update(index as int, now),
                ..self.controls
            },
            ..self
        };
        match change(self.controls.held, index as int, now) {
            None => looked.at_button(index + 1),
            Some(event) => looked.at(Phase::ShowTile(event)),
        }
    }

    /// After a measurement.
    pub open spec fn at_range(self, range: Option<u16>) -> ControllerState {
        match range {
            None => self.at_display(),
            Some(mm) => if moved(cc_of(mm), self.controls.last_cc as int) {
                let cc = cc_of(mm) as u8;
                ControllerState {
                    phase: Phase::SendCc(cc),
                    controls: ControlsState { last_cc: cc, ..self.controls },
                    ..self
                }
            } else {
                self.at_display()
            },
        }
    }

    /// The state after the board's answer. An answer that does not fit the action that was
    /// asked for changes nothing, so that the action is asked for again.
    pub open spec fn next(self, event: Event) -> ControllerState {
        match (self.phase, event) {
            (Phase::InitDisplay, Event::Done) => self.at(Phase::ShowStartup),
            (Phase::ShowStartup, Event::Done) => self.at(Phase::SensorOff),
            (Phase::SensorOff, Event::Done) => self.at(Phase::SensorOffWait),
            (Phase::SensorOffWait, Event::Done) => self.at(Phase::SensorOn),
            (Phase::SensorOn, Event::Done) => self.at(Phase::SensorOnWait),
            (Phase::SensorOnWait, Event::Done) => self.at(Phase::ProbeSensor),
            (Phase::ProbeSensor, Event::Answered(present)) => self.at(
                if present {
                    Phase::OpenSensor
                } else {
                    Phase::Connect
                },
            ),
            (Phase::OpenSensor, Event::Answered(ready)) => ControllerState {
                phase: if ready {
                    Phase::SetBudget
                } else {
                    Phase::Connect
                },
                has_sensor: ready,
                ..self
            },
            (Phase::SetBudget, Event::Done) => self.at(Phase::Connect),
            (Phase::Connect, Event::Done) => self.at(Phase::Greet),
            (Phase::Greet, Event::Done) => self.at(Phase::ShowDashboard),
            (Phase::ShowDashboard, Event::Done) => self.at(Phase::Sample(0)),
            (Phase::Sample(index), Event::Level(now)) => self.at_level(index, now),
            (Phase::ShowTile(change), Event::Done) => self.at(
                if change is Pressed {
                    Phase::Click(change)
                } else {
                    Phase::SendNote(change)
                },
            ),
            (Phase::Click(change), Event::Done) => self.at(Phase::SendNote(change)),
            (Phase::SendNote(change), Event::Done) => self.at_button(event_index(change) + 1),
            (Phase::SendNote(_), Event::SendFailed(error)) => self.at_failure(error),
            (Phase::Measure, Event::Range(range)) => self.at_range(range),
            (Phase::SendCc(_), Event::Done) => self.at_display(),
            (Phase::SendCc(_), Event::SendFailed(error)) => self.at_failure(error),
            (Phase::ShowBar(_), Event::Done) => self.at(Phase::Rest),
            (Phase::Rest, Event::Done) => self.at(Phase::Sample(0)),
            (Phase::Silence(index), Event::Done) => self.at(
                if index < 3 {
                    Phase::Silence((index + 1) as u8)
                } else {
                    Phase::Connect
                },
            ),
            (Phase::Silence(_), Event::SendFailed(EndpointError::Disabled)) => self.at(
                Phase::Connect,
            ),
            (Phase::Silence(_), Event::SendFailed(EndpointError::BufferOverflow)) => self.at(
                Phase::Halted,
            ),
            _ => self,
        }
    }

    /// Whether the controls are being looked at.
    pub open spec fn polling(self) -> bool {
        match self.phase {
            Phase::Sample(_) => true,
            Phase::ShowTile(_) => true,
            Phase::Click(_) => true,
            Phase::SendNote(_) => true,
            Phase::Measure => true,
            Phase::SendCc(_) => true,
            Phase::ShowBar(_) => true,
            Phase::Rest => true,
            _ => false,
        }
    }

    /// Whether an answer fits the action that was asked for.
    pub open spec fn answered_by(self, event: Event) -> bool {
        match self.phase {
            Phase::ProbeSensor => event is Answered,
            Phase::OpenSensor => event is Answered,
            Phase::Sample(_) => event is Level,
            Phase::Measure => event is Range,
            Phase::SendNote(_) => event is Done || event is SendFailed,
            Phase::SendCc(_) => event is Done || event is SendFailed,
            Phase::Silence(_) => event is Done || event is SendFailed,
            Phase::Halted => false,
            _ => event is Done,
        }
    }

    /// What holds of a change that is being dealt with: it is the change of one of the four
    /// buttons, and it has been recorded.
    pub open spec fn recorded(self, event: ButtonEvent) -> bool {
        &&& event_index(event) < 4
        &&& event_note(event) == BUTTON_NOTES[event_index(event) as int]
        &&& self.controls.held[event_index(event) as int] == (event is Pressed)
    }

    /// What holds of every state that the controller gets into.
    pub open spec fn valid(self) -> bool {
        &&& self.controls.held.len() == 4
        &&& self.controls.last_cc <= 127 || self.controls.last_cc == NO_CC
        &&& match self.phase {
            Phase::Sample(index) => index < 4,
            Phase::ShowTile(event) => self.recorded(event),
            Phase::Click(event) => self.recorded(event) && event is Pressed,
            Phase::SendNote(event) => self.recorded(event),
            Phase::Measure => self.has_sensor,
            Phase::SendCc(cc) => cc == self.controls.last_cc && cc <= 127 && self.has_sensor,
            Phase::ShowBar(cc) => cc == self.controls.last_cc && cc
                == self.controls.last_display_cc,
            Phase::Rest => self.controls.last_cc == self.controls.last_display_cc,
            Phase::Silence(index) => index < 4,
            _ => true,
        }
    }
}

/// The controller.
pub struct Controller {
    phase: Phase,
    controls: Controls,
    has_sensor: bool,
}

impl View for Controller {
    type V = ControllerState;

    closed spec fn view(&self) -> ControllerState {
        ControllerState {
            phase: self.phase,
            controls: self.controls@,
            has_sensor: self.has_sensor,
        }
    }
}

impl Controller {
    /// The controller is in one of the states that it gets into.
    pub closed spec fn wf(self) -> bool {
        self.controls.wf() && self@.valid()
    }

    /// The controller of a board that has just been switched on.
    pub fn new() -> (controller: Self)
        ensures
            controller.wf(),
            controller@ == (ControllerState {
                phase: Phase::InitDisplay,
                controls: ControlsState {
                    held: seq![false, false, false, false],
                    last_cc: NO_CC,
                    last_display_cc: NO_CC,
                },
                has_sensor: false,
            }),
    {
        Controller { phase: Phase::InitDisplay, controls: Controls::new(), has_sensor: false }
    }

    /// Every state that the controller gets into is valid.
    pub proof fn state_is_valid(&self)
        requires
            self.wf(),
        ensures
            self@.valid(),
    {
    }

    /// What the board is to do now.
    pub fn action(&self) -> (action: Action)
        requires
            self.wf(),
        ensures
            action@ == self@.request(),
    {
        let mut display = Display::new();
        match self.phase {
            Phase::InitDisplay => {
                display.init();
                Action::Display(display.flush())
            },
            Phase::ShowStartup => {
                display.show_startup();
                Action::Display(display.flush())
            },
            Phase::SensorOff => Action::SensorPower(false),
            Phase::SensorOffWait => Action::Wait(10),
            Phase::SensorOn => Action::SensorPower(true),
            Phase::SensorOnWait => Action::Wait(50),
            Phase::ProbeSensor => Action::Probe {
                address: SENSOR_ADDRESS,
                register: SENSOR_MODEL_REGISTER,
            },
            Phase::OpenSensor => Action::OpenSensor,
            Phase::SetBudget => Action::SetTimingBudget(SENSOR_BUDGET_US),
            Phase::Connect => Action::AwaitHost,
            Phase::Greet => Action::Buzz(startup_beep()),
            Phase::ShowDashboard => {
                display.draw_dashboard(&self.controls.button_states(), self.controls.last_cc());
                Action::Display(display.flush())
            },
            Phase::Sample(index) => Action::Sample(index),
            Phase::ShowTile(ButtonEvent::Pressed { index, .. }) => {
                display.draw_button(index, true);
                Action::Display(display.flush())
            },
            Phase::ShowTile(ButtonEvent::Released { index, .. }) => {
                display.draw_button(index, false);
                Action::Display(display.flush())
            },
            Phase::Click(_) => Action::Buzz(click_beep()),
            Phase::SendNote(ButtonEvent::Pressed { note, .. }) => Action::Send(
                midi_note_on(note, BUTTON_VELOCITY),
            ),
            Phase::SendNote(ButtonEvent::Released { note, .. }) => Action::Send(
                midi_note_off(note),
            ),
            Phase::Measure => Action::Measure,
            Phase::SendCc(cc) => Action::Send(midi_control_change(CC_DISTANCE, cc)),
            Phase::ShowBar(cc) => {
                display.draw_cc(cc);
                Action::Display(display.flush())
            },
            Phase::Rest => Action::Wait(POLL_PAUSE_MS),
            Phase::Silence(index) => Action::Send(midi_note_off(BUTTON_NOTES[index as usize])),
            Phase::Halted => Action::Halt,
        }
    }

    /// Takes in how the board has answered the action.
    pub fn handle(&mut self, event: Event)
        requires
            old(self).wf(),
        ensures
            final(self).wf(),
            final(self)@ == old(self)@.next(event),
    {
        match self.phase {
            Phase::Sample(_) | Phase::ShowTile(_) | Phase::Click(_) | Phase::SendNote(_)
            | Phase::Measure | Phase::SendCc(_) | Phase::ShowBar(_) | Phase::Rest => {
                self.poll_controls(event);
            },
            Phase::Silence(index) => {
                self.all_notes_off(index, event);
            },
            _ => {
                self.start(event);
            },
        }
    }

    /// Takes in an answer while the display and the sensor come up and while a host is
    /// awaited and greeted.
    fn start(&mut self, event: Event)
        requires
            old(self).wf(),
            !(old(self)@.polling() || old(self)@.phase is Silence),
        ensures
            final(self).wf(),
            final(self)@ == old(self)@.next(event),
    {
        match (self.phase, event) {
            (Phase::InitDisplay, Event::Done) => {
                self.phase = Phase::ShowStartup;
            },
            (Phase::ShowStartup, Event::Done) => {
                self.phase = Phase::SensorOff;
            },
            (Phase::SensorOff, Event::Done) => {
                self.phase = Phase::SensorOffWait;
            },
            (Phase::SensorOffWait, Event::Done) => {
                self.phase = Phase::SensorOn;
            },
            (Phase::SensorOn, Event::Done) => {
                self.phase = Phase::SensorOnWait;
            },
            (Phase::SensorOnWait, Event::Done) => {
                self.phase = Phase::ProbeSensor;
            },
            (Phase::ProbeSensor, Event::Answered(present)) => {
                self.phase = if present {
                    Phase::OpenSensor
                } else {
                    Phase::Connect
                };
            },
            (Phase::OpenSensor, Event::Answered(ready)) => {
                self.has_sensor = ready;
                self.phase = if ready {
                    Phase::SetBudget
                } else {
                    Phase::Connect
                };
            },
            (Phase::SetBudget, Event::Done) => {
                self.phase = Phase::Connect;
            },
            (Phase::Connect, Event::Done) => {
                self.phase = Phase::Greet;
            },
            (Phase::Greet, Event::Done) => {
                self.phase = Phase::ShowDashboard;
            },
            (Phase::ShowDashboard, Event::Done) => {
                self.phase = Phase::Sample(0);
            },
            _ => {},
        }
    }

    /// Takes in an answer while the controls are looked at.
    fn poll_controls(&mut self, event: Event)
        requires
            old(self).wf(),
            old(self)@.polling(),
        ensures
            final(self).wf(),
            final(self)@ == old(self)@.next(event),
    {
        match (self.phase, event) {
            (Phase::Sample(index), Event::Level(now)) => {
                match self.controls.poll_button(index, now) {
                    Some(change) => {
                        self.phase = Phase::ShowTile(change);
                    },
                    None => {
                        self.go_to_button(index + 1);
                    },
                }
            },
            (Phase::ShowTile(ButtonEvent::Pressed { index, note }), Event::Done) => {
                self.phase = Phase::Click(ButtonEvent::Pressed { index, note });
            },
            (Phase::ShowTile(ButtonEvent::Released { index, note }), Event::Done) => {
                self.phase = Phase::SendNote(ButtonEvent::Released { index, note });
            },
            (Phase::Click(change), Event::Done) => {
                self.phase = Phase::SendNote(change);
            },
            (Phase::SendNote(ButtonEvent::Pressed { index, .. }), Event::Done) => {
                self.go_to_button(index + 1);
            },
            (Phase::SendNote(ButtonEvent::Released { index, .. }), Event::Done) => {
                self.go_to_button(index + 1);
            },
            (Phase::SendNote(_), Event::SendFailed(error)) => {
                self.fail(error);
            },
            (Phase::Measure, Event::Range(range)) => {
                match range {
                    Some(mm) => {
                        match self.controls.poll_distance(mm) {
                            Some(cc) => {
                                self.phase = Phase::SendCc(cc);
                            },
                            None => {
                                self.go_to_display();
                            },
                        }
                    },
                    None => {
                        self.go_to_display();
                    },
                }
            },
            (Phase::SendCc(_), Event::Done) => {
                self.go_to_display();
            },
            (Phase::SendCc(_), Event::SendFailed(error)) => {
                self.fail(error);
            },
            (Phase::ShowBar(_), Event::Done) => {
                self.phase = Phase::Rest;
            },
            (Phase::Rest, Event::Done) => {
                self.phase = Phase::Sample(0);
            },
            _ => {},
        }
    }

    /// Takes in an answer while the notes are silenced. The first packet that does not get
    /// through ends it.
    fn all_notes_off(&mut self, index: u8, event: Event)
        requires
            old(self).wf(),
            old(self)@.phase == Phase::Silence(index),
        ensures
            final(self).wf(),
            final(self)@ == old(self)@.next(event),
    {
        match event {
            Event::Done => {
                self.phase = if index < 3 {
                    Phase::Silence(index + 1)
                } else {
                    Phase::Connect
                };
            },
            Event::SendFailed(error) => {
                self.phase = match Disconnected::from(error) {
                    Some(_) => Phase::Connect,
                    None => Phase::Halted,
                };
            },
            _ => {},
        }
    }

    /// Goes on to a button, or to the sensor behind the last one.
    fn go_to_button(&mut self, index: u8)
        requires
            old(self).controls.wf(),
            old(self)@.controls.held.len() == 4,
            old(self)@.controls.last_cc <= 127 || old(self)@.controls.last_cc == NO_CC,
            index <= 4,
        ensures
            final(self).wf(),
            final(self)@ == old(self)@.at_button(index as int),
    {
        if index < 4 {
            self.phase = Phase::Sample(index);
        } else if self.has_sensor {
            self.phase = Phase::Measure;
        } else {
            self.go_to_display();
        }
    }

    /// Goes on to the bar, or past it if it is up to date.
    fn go_to_display(&mut self)
        requires
            old(self).controls.wf(),
            old(self)@.controls.held.len() == 4,
            old(self)@.controls.last_cc <= 127 || old(self)@.controls.last_cc == NO_CC,
        ensures
            final(self).wf(),
            final(self)@ == old(self)@.at_display(),
    {
        match self.controls.poll_display() {
            Some(cc) => {
                self.phase = Phase::ShowBar(cc);
            },
            None => {
                self.phase = Phase::Rest;
            },
        }
    }

    /// Leaves the controls after a packet that did not get through.
    fn fail(&mut self, error: EndpointError)
        requires
            old(self).wf(),
        ensures
            final(self).wf(),
            final(self)@ == old(self)@.at_failure(error),
    {
        self.phase = match Disconnected::from(error) {
            Some(_) => Phase::Silence(0),
            None => Phase::Halted,
        };
    }
}

/// The controller gets from valid states to valid states only, whatever the board answers.
pub proof fn valid_states_lead_to_valid_states(state: ControllerState, event: Event)
    requires
        state.valid(),
    ensures
        state.next(event).valid(),
{
}

/// Every packet that the controller sends is a valid one.
pub proof fn only_valid_packets_are_sent(state: ControllerState, packet: Seq<u8>)
    requires
        state.valid(),
        state.request() == Request::Send(packet),
    ensures
        valid_packet(packet),
{
}

/// A controller that has stopped stays stopped.
pub proof fn stopped_for_good(state: ControllerState, event: Event)
    requires
        state.phase is Halted,
    ensures
        state.next(event) == state,
{
}

/// The value changes only to be reported, and then by two or more: two values that are
/// reported in a row are never closer than that.
pub proof fn value_changes_to_be_reported(state: ControllerState, event: Event)
    requires
        state.next(event).controls.last_cc != state.controls.last_cc,
    ensures
        state.phase is Measure,
        state.next(event).phase == Phase::SendCc(state.next(event).controls.last_cc),
        moved(state.next(event).controls.last_cc as int, state.controls.last_cc as int),
{
}

/// The recorded state of a button changes only when that button is looked at and found
/// changed; the change is then shown and, behind it, reported.
pub proof fn button_changes_when_looked_at(state: ControllerState, event: Event, index: int)
    requires
        state.valid(),
        0 <= index < 4,
        state.next(event).controls.held[index] != state.controls.held[index],
    ensures
        state.phase == Phase::Sample(index as u8),
        event == Event::Level(!state.controls.held[index]),
        state.next(event).phase == Phase::ShowTile(
            change(state.controls.held, index, !state.controls.held[index]).unwrap(),
        ),
{
}

} // verus!
