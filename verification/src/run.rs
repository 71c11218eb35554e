//! Whole runs of the controller: from switching on to the wait for a host, from a host to
//! the first look at the controls, one round of looking at all controls, and the silencing
//! of the notes.
use crate::buzzer::{click_beep_ops, startup_beep_ops};
use crate::controller::{
    event_packet, ControllerState, Event, Phase, Request, POLL_PAUSE_MS, SENSOR_ADDRESS,
    SENSOR_BUDGET_US, SENSOR_MODEL_REGISTER,
};
use crate::controls::{change, moved, ControlsState};
use crate::dashboard::{button_steps, cc_steps, dashboard_steps, init_steps};
use crate::midi::{cc_of, control_change_packet, note_off_packet, BUTTON_NOTES, CC_DISTANCE};
use crate::usb::EndpointError;
use vstd::prelude::*;

verus! {

/// What the board finds during a run in which every packet gets through.
pub struct Readings {
    /// Whether the sensor answers to a probe.
    pub present: bool,
    /// Whether the sensor can be set up.
    pub ready: bool,
    /// Which buttons are held.
    pub levels: Seq<bool>,
    /// The measured distance, if the measurement succeeds.
    pub range: Option<u16>,
}

impl Readings {
    /// The answer to the action of a state.
    pub open spec fn answer(self, state: ControllerState) -> Event {
        match state.phase {
            Phase::ProbeSensor => Event::Answered(self.present),
            Phase::OpenSensor => Event::Answered(self.ready),
            Phase::Sample(index) => Event::Level(self.levels[index as int]),
            Phase::Measure => Event::Range(self.range),
            _ => Event::Done,
        }
    }
}

/// The state after `n` actions.
pub open spec fn state_after(state: ControllerState, readings: Readings, n: nat) -> ControllerState
    decreases n,
{
    if n == 0 {
        state
    } else {
        let before = state_after(state, readings, (n - 1) as nat);
        before.next(readings.answer(before))
    }
}

/// The first `n` actions.
pub open spec fn actions(state: ControllerState, readings: Readings, n: nat) -> Seq<Request>
    decreases n,
{
    if n == 0 {
        seq![]
    } else {
        actions(state, readings, (n - 1) as nat).push(
            state_after(state, readings, (n - 1) as nat).request(),
        )
    }
}

/// From one state the controller performs these actions and gets to the other.
pub open spec fn leads_to(
    from: ControllerState,
    readings: Readings,
    performed: Seq<Request>,
    to: ControllerState,
) -> bool {
    &&& actions(from, readings, performed.len()) == performed
    &&& state_after(from, readings, performed.len()) == to
}

/// The actions for one button: look at it, and if it has changed redraw its tile, click if
/// it was pressed, and report it.
pub open spec fn button_round(held: Seq<bool>, index: int, now: bool) -> Seq<Request> {
    let look = seq![Request::Sample(index as u8)];
    match change(held, index, now) {
        None => look,
        Some(event) => if now {
            look + seq![
                Request::Display(button_steps(index as u8, true)),
                Request::Buzz(click_beep_ops()),
                Request::Send(event_packet(event)),
            ]
        } else {
            look + seq![
                Request::Display(button_steps(index as u8, false)),
                Request::Send(event_packet(event)),
            ]
        },
    }
}

/// The actions for the first `n` buttons.
pub open spec fn buttons_round(held: Seq<bool>, levels: Seq<bool>, n: nat) -> Seq<Request>
    decreases n,
{
    if n == 0 {
        seq![]
    } else {
        buttons_round(held, levels, (n - 1) as nat) + button_round(held, n - 1, levels[n - 1])
    }
}

/// The button states when the first `n` buttons have been looked at.
pub open spec fn looked_at(held: Seq<bool>, levels: Seq<bool>, n: nat) -> Seq<bool> {
    Seq::new(
        4,
        |i: int|
            if i < n {
                levels[i]
            } else {
                held[i]
            },
    )
}

/// The value after a measurement.
pub open spec fn value_after(state: ControllerState, range: Option<u16>) -> u8 {
    match range {
        Some(mm) => if state.has_sensor && moved(cc_of(mm), state.controls.last_cc as int) {
            cc_of(mm) as u8
        } else {
            state.controls.last_cc
        },
        None => state.controls.last_cc,
    }
}

/// The actions for the sensor: none if there is none; measure, and report the value if it
/// has moved.
pub open spec fn sensor_round(state: ControllerState, range: Option<u16>) -> Seq<Request> {
    if !state.has_sensor {
        seq![]
    } else {
        match range {
            Some(mm) => if moved(cc_of(mm), state.controls.last_cc as int) {
                seq![
                    Request::Measure,
                    Request::Send(control_change_packet(CC_DISTANCE, cc_of(mm) as u8)),
                ]
            } else {
                seq![Request::Measure]
            },
            None => seq![Request::Measure],
        }
    }
}

/// The actions for the bar: redraw it if the value is not the one that was last drawn.
pub open spec fn bar_round(cc: u8, last_display_cc: u8) -> Seq<Request> {
    if cc != last_display_cc {
        seq![Request::Display(cc_steps(cc))]
    } else {
        seq![]
    }
}

/// The actions of one round: all buttons, the sensor, the bar, a pause.
pub open spec fn whole_round(state: ControllerState, readings: Readings) -> Seq<Request> {
    buttons_round(state.controls.held, readings.levels, 4) + sensor_round(state, readings.range)
        + bar_round(value_after(state, readings.range), state.controls.last_display_cc) + seq![
        Request::Wait(POLL_PAUSE_MS),
    ]
}

/// One stretch of a run after another is a run.
proof fn lemma_then(
    from: ControllerState,
    readings: Readings,
    first: Seq<Request>,
    middle: ControllerState,
    second: Seq<Request>,
    to: ControllerState,
)
    requires
        leads_to(from, readings, first, middle),
        leads_to(middle, readings, second, to),
    ensures
        leads_to(from, readings, first + second, to),
{
    lemma_split(from, readings, first.len(), second.len());
    assert((first + second).len() == first.len() + second.len());
}

proof fn lemma_split(from: ControllerState, readings: Readings, a: nat, b: nat)
    ensures
        state_after(from, readings, a + b) == state_after(
            state_after(from, readings, a),
            readings,
            b,
        ),
        actions(from, readings, a + b) == actions(from, readings, a) + actions(
            state_after(from, readings, a),
            readings,
            b,
        ),
    decreases b,
{
    if b == 0 {
        assert(actions(from, readings, a) + Seq::<Request>::empty() =~= actions(from, readings, a));
    } else {
        lemma_split(from, readings, a, (b - 1) as nat);
        assert((a + b - 1) as nat == a + (b - 1) as nat);
        assert(actions(from, readings, a + b) =~= actions(from, readings, a) + actions(
            state_after(from, readings, a),
            readings,
            b,
        ));
    }
}

proof fn lemma_stay(state: ControllerState, readings: Readings)
    ensures
        leads_to(state, readings, seq![], state),
{
}

proof fn lemma_one(state: ControllerState, readings: Readings)
    ensures
        leads_to(state, readings, seq![state.request()], state.next(readings.answer(state))),
{
    reveal_with_fuel(state_after, 2);
    reveal_with_fuel(actions, 2);
    assert(actions(state, readings, 1) =~= seq![state.request()]);
}

/// The state in which the change of a button is reported.
pub open spec fn reporting(state: ControllerState, index: int, now: bool) -> ControllerState {
    ControllerState {
        phase: Phase::SendNote(change(state.controls.held, index, now).unwrap()),
        controls: ControlsState {
            held: state.controls.held.update(index, now),
            ..state.controls
        },
        ..state
    }
}

proof fn lemma_until_report(state: ControllerState, readings: Readings, index: u8)
    requires
        state.phase == Phase::Sample(index),
        state.controls.held.len() == 4,
        index < 4,
        state.controls.held[index as int] != readings.levels[index as int],
    ensures
        ({
            let now = readings.levels[index as int];
            leads_to(
                state,
                readings,
                button_round(state.controls.held, index as int, now).drop_last(),
                reporting(state, index as int, now),
            )
        }),
{
    let now = readings.levels[index as int];
    let held = state.controls.held;
    let look = seq![Request::Sample(index as u8)];
    let event = change(held, index as int, now).unwrap();
    let sending = reporting(state, index as int, now);
    let drawing = sending.at(Phase::ShowTile(event));
    let draw = seq![Request::Display(button_steps(index, now))];
    let round = button_round(held, index as int, now);
    lemma_one(state, readings);
    lemma_one(drawing, readings);
    lemma_then(state, readings, look, drawing, draw, drawing.next(Event::Done));
    if now {
        let clicking = sending.at(Phase::Click(event));
        let click = seq![Request::Buzz(click_beep_ops())];
        lemma_one(clicking, readings);
        lemma_then(state, readings, look + draw, clicking, click, sending);
        assert(round.drop_last() =~= look + draw + click);
    } else {
        assert(round.drop_last() =~= look + draw);
    }
}

proof fn lemma_button_round(state: ControllerState, readings: Readings, index: u8)
    requires
        state.phase == Phase::Sample(index),
        state.controls.held.len() == 4,
        index < 4,
    ensures
        ({
            let now = readings.levels[index as int];
            leads_to(
                state,
                readings,
                button_round(state.controls.held, index as int, now),
                ControllerState {
                    controls: ControlsState {
                        held: state.controls.held.update(index as int, now),
                        ..state.controls
                    },
                    ..state
                }.at_button(index + 1),
            )
        }),
{
    let now = readings.levels[index as int];
    let held = state.controls.held;
    if now == held[index as int] {
        lemma_one(state, readings);
    } else {
        let round = button_round(held, index as int, now);
        let sending = reporting(state, index as int, now);
        lemma_until_report(state, readings, index);
        lemma_one(sending, readings);
        lemma_then(
            state,
            readings,
            round.drop_last(),
            sending,
            seq![sending.request()],
            sending.next(Event::Done),
        );
        assert(round =~= round.drop_last() + seq![sending.request()]);
    }
}

proof fn lemma_sensor_round(state: ControllerState, readings: Readings)
    requires
        state.valid(),
    ensures
        leads_to(
            state.at_button(4),
            readings,
            sensor_round(state, readings.range),
            ControllerState {
                controls: ControlsState {
                    last_cc: value_after(state, readings.range),
                    ..state.controls
                },
                ..state
            }.at_display(),
        ),
{
    let sensor = sensor_round(state, readings.range);
    let from = state.at_button(4);
    if state.has_sensor {
        lemma_one(from, readings);
        if sensor.len() == 2 {
            let sending = from.next(readings.answer(from));
            lemma_one(sending, readings);
            lemma_then(
                from,
                readings,
                seq![Request::Measure],
                sending,
                seq![sending.request()],
                sending.next(Event::Done),
            );
            assert(sensor =~= seq![Request::Measure] + seq![sending.request()]);
        }
    } else {
        lemma_stay(from, readings);
    }
}

proof fn lemma_bar_round(state: ControllerState, readings: Readings)
    ensures
        leads_to(
            state.at_display(),
            readings,
            bar_round(state.controls.last_cc, state.controls.last_display_cc),
            ControllerState {
                phase: Phase::Rest,
                controls: ControlsState {
                    last_display_cc: state.controls.last_cc,
                    ..state.controls
                },
                ..state
            },
        ),
{
    let from = state.at_display();
    if state.controls.last_cc != state.controls.last_display_cc {
        lemma_one(from, readings);
    } else {
        lemma_stay(from, readings);
    }
}

proof fn lemma_buttons_round(state: ControllerState, readings: Readings, n: nat)
    requires
        state.phase == Phase::Sample(0),
        state.controls.held.len() == 4,
        n <= 4,
    ensures
        leads_to(
            state,
            readings,
            buttons_round(state.controls.held, readings.levels, n),
            ControllerState {
                controls: ControlsState {
                    held: looked_at(state.controls.held, readings.levels, n),
                    ..state.controls
                },
                ..state
            }.at_button(n as int),
        ),
    decreases n,
{
    let held = state.controls.held;
    let levels = readings.levels;
    if n == 0 {
        assert(looked_at(held, levels, 0) =~= held);
        lemma_stay(state, readings);
    } else {
        let k = (n - 1) as nat;
        lemma_buttons_round(state, readings, k);
        let middle = ControllerState {
            controls: ControlsState { held: looked_at(held, levels, k), ..state.controls },
            ..state
        }.at_button(k as int);
        lemma_button_round(middle, readings, k as u8);
        assert(looked_at(held, levels, k).update(k as int, levels[k as int]) =~= looked_at(
            held,
            levels,
            n,
        ));
        assert(button_round(middle.controls.held, k as int, levels[k as int]) == button_round(
            held,
            k as int,
            levels[k as int],
        ));
        let to = ControllerState {
            controls: ControlsState { held: looked_at(held, levels, n), ..state.controls },
            ..state
        }.at_button(n as int);
        lemma_then(
            state,
            readings,
            buttons_round(held, levels, k),
            middle,
            button_round(held, k as int, levels[k as int]),
            to,
        );
    }
}

/// A round looks at all four buttons in order, reports each that has changed, takes a
/// measurement if there is a sensor, reports the value if it has moved, redraws the bar if
/// its value is a new one, and pauses. Afterwards the recorded states are those that the
/// buttons were found in, and the value that was drawn is the current one.
pub proof fn round_looks_at_everything(state: ControllerState, readings: Readings)
    requires
        state.valid(),
        state.phase == Phase::Sample(0),
        readings.levels.len() == 4,
    ensures
        leads_to(
            state,
            readings,
            whole_round(state, readings),
            ControllerState {
                controls: ControlsState {
                    held: readings.levels,
                    last_cc: value_after(state, readings.range),
                    last_display_cc: value_after(state, readings.range),
                },
                ..state
            },
        ),
{
    let held = state.controls.held;
    let levels = readings.levels;
    let cc = value_after(state, readings.range);
    let buttons = buttons_round(held, levels, 4);
    let sensor = sensor_round(state, readings.range);
    let bar = bar_round(cc, state.controls.last_display_cc);
    let pause = seq![Request::Wait(POLL_PAUSE_MS)];
    lemma_buttons_round(state, readings, 4);
    assert(looked_at(held, levels, 4) =~= levels);
    let s1 = ControllerState {
        controls: ControlsState { held: levels, ..state.controls },
        ..state
    };
    let s2 = ControllerState { controls: ControlsState { last_cc: cc, ..s1.controls }, ..s1 };
    let resting = ControllerState {
        phase: Phase::Rest,
        controls: ControlsState { last_display_cc: cc, ..s2.controls },
        ..s2
    };
    lemma_sensor_round(s1, readings);
    lemma_then(state, readings, buttons, s1.at_button(4), sensor, s2.at_display());
    lemma_bar_round(s2, readings);
    lemma_then(state, readings, buttons + sensor, s2.at_display(), bar, resting);
    lemma_one(resting, readings);
    lemma_then(
        state,
        readings,
        buttons + sensor + bar,
        resting,
        pause,
        resting.at(Phase::Sample(0)),
    );
}

/// When the report of a button's change does not get through, the round ends there: that
/// change and those before it stay recorded, the buttons behind it have not been looked
/// at, and the value stays as it was.
pub proof fn lost_note_ends_round(
    state: ControllerState,
    readings: Readings,
    index: u8,
    error: EndpointError,
)
    requires
        state.valid(),
        state.phase == Phase::Sample(0),
        readings.levels.len() == 4,
        index < 4,
        state.controls.held[index as int] != readings.levels[index as int],
    ensures
        ({
            let held = state.controls.held;
            let now = readings.levels[index as int];
            let sending = ControllerState {
                phase: Phase::SendNote(change(held, index as int, now).unwrap()),
                controls: ControlsState {
                    held: looked_at(held, readings.levels, (index + 1) as nat),
                    ..state.controls
                },
                ..state
            };
            &&& leads_to(
                state,
                readings,
                buttons_round(held, readings.levels, index as nat) + button_round(
                    held,
                    index as int,
                    now,
                ).drop_last(),
                sending,
            )
            &&& sending.next(Event::SendFailed(error)) == sending.at_failure(error)
        }),
{
    let held = state.controls.held;
    let levels = readings.levels;
    let now = levels[index as int];
    let n = (index + 1) as nat;
    lemma_buttons_round(state, readings, index as nat);
    let middle = ControllerState {
        controls: ControlsState { held: looked_at(held, levels, index as nat), ..state.controls },
        ..state
    }.at_button(index as int);
    lemma_until_report(middle, readings, index);
    assert(looked_at(held, levels, index as nat).update(index as int, now) =~= looked_at(
        held,
        levels,
        n,
    ));
    assert(change(middle.controls.held, index as int, now) == change(held, index as int, now));
    assert(button_round(middle.controls.held, index as int, now) == button_round(
        held,
        index as int,
        now,
    ));
    lemma_then(
        state,
        readings,
        buttons_round(held, levels, index as nat),
        middle,
        button_round(held, index as int, now).drop_last(),
        reporting(middle, index as int, now),
    );
}

/// When the report of a value does not get through, the round ends there: the buttons have
/// been looked at, and the value counts as reported although it has not been drawn.
pub proof fn lost_value_ends_round(
    state: ControllerState,
    readings: Readings,
    mm: u16,
    error: EndpointError,
)
    requires
        state.valid(),
        state.phase == Phase::Sample(0),
        state.has_sensor,
        readings.levels.len() == 4,
        readings.range == Some(mm),
        moved(cc_of(mm), state.controls.last_cc as int),
    ensures
        ({
            let sending = ControllerState {
                phase: Phase::SendCc(cc_of(mm) as u8),
                controls: ControlsState {
                    held: readings.levels,
                    last_cc: cc_of(mm) as u8,
                    ..state.controls
                },
                ..state
            };
            &&& leads_to(
                state,
                readings,
                buttons_round(state.controls.held, readings.levels, 4) + seq![Request::Measure],
                sending,
            )
            &&& sending.next(Event::SendFailed(error)) == sending.at_failure(error)
        }),
{
    let held = state.controls.held;
    lemma_buttons_round(state, readings, 4);
    assert(looked_at(held, readings.levels, 4) =~= readings.levels);
    let measuring = ControllerState {
        phase: Phase::Measure,
        controls: ControlsState { held: readings.levels, ..state.controls },
        ..state
    };
    lemma_one(measuring, readings);
    lemma_then(
        state,
        readings,
        buttons_round(held, readings.levels, 4),
        measuring,
        seq![Request::Measure],
        measuring.at_range(Some(mm)),
    );
}

/// After a lost host the notes of all four buttons are ended, in order, and then a host is
/// awaited.
pub proof fn silence_ends_all_notes(state: ControllerState, readings: Readings)
    requires
        state.phase == Phase::Silence(0),
    ensures
        leads_to(
            state,
            readings,
            Seq::new(4, |i: int| Request::Send(note_off_packet(BUTTON_NOTES[i]))),
            state.at(Phase::Connect),
        ),
{
    let all = Seq::new(4, |i: int| Request::Send(note_off_packet(BUTTON_NOTES[i])));
    let s1 = state.at(Phase::Silence(1));
    let s2 = state.at(Phase::Silence(2));
    let s3 = state.at(Phase::Silence(3));
    let end = state.at(Phase::Connect);
    lemma_one(state, readings);
    lemma_one(s1, readings);
    lemma_one(s2, readings);
    lemma_one(s3, readings);
    let a = seq![state.request()];
    let b = seq![s1.request()];
    let c = seq![s2.request()];
    let d = seq![s3.request()];
    lemma_then(state, readings, a, s1, b, s2);
    lemma_then(state, readings, a + b, s2, c, s3);
    lemma_then(state, readings, a + b + c, s3, d, end);
    assert(all =~= a + b + c + d);
}

/// The silencing of the notes ends at the first packet that does not get through because
/// the host is gone, and a host is awaited.
pub proof fn silence_gives_up(state: ControllerState, index: u8)
    requires
        state.phase == Phase::Silence(index),
    ensures
        state.next(Event::SendFailed(EndpointError::Disabled)) == state.at(Phase::Connect),
{
}

/// The actions from switching on to the wait for a host.
pub open spec fn boot(readings: Readings) -> Seq<Request> {
    seq![
        Request::Display(init_steps()),
        Request::Display(dashboard_steps(seq![false, false, false, false], 0)),
        Request::SensorPower(false),
        Request::Wait(10),
        Request::SensorPower(true),
        Request::Wait(50),
        Request::Probe { address: SENSOR_ADDRESS, register: SENSOR_MODEL_REGISTER },
    ] + (if readings.present {
        seq![Request::OpenSensor]
    } else {
        seq![]
    }) + (if readings.present && readings.ready {
        seq![Request::SetTimingBudget(SENSOR_BUDGET_US)]
    } else {
        seq![]
    })
}

/// A board that is switched on brings up its display and restarts its sensor; it uses the
/// sensor if that answers and can be set up.
pub proof fn boot_finds_sensor(state: ControllerState, readings: Readings)
    requires
        state.phase == Phase::InitDisplay,
        !state.has_sensor,
    ensures
        leads_to(
            state,
            readings,
            boot(readings),
            ControllerState {
                phase: Phase::Connect,
                has_sensor: readings.present && readings.ready,
                ..state
            },
        ),
{
    let s1 = state.at(Phase::ShowStartup);
    let s2 = state.at(Phase::SensorOff);
    let s3 = state.at(Phase::SensorOffWait);
    let s4 = state.at(Phase::SensorOn);
    let s5 = state.at(Phase::SensorOnWait);
    let s6 = state.at(Phase::ProbeSensor);
    let s7 = s6.next(readings.answer(s6));
    let a1 = seq![state.request()];
    let a2 = a1 + seq![s1.request()];
    let a3 = a2 + seq![s2.request()];
    let a4 = a3 + seq![s3.request()];
    let a5 = a4 + seq![s4.request()];
    let a6 = a5 + seq![s5.request()];
    let a7 = a6 + seq![s6.request()];
    lemma_one(state, readings);
    lemma_one(s1, readings);
    lemma_one(s2, readings);
    lemma_one(s3, readings);
    lemma_one(s4, readings);
    lemma_one(s5, readings);
    lemma_one(s6, readings);
    lemma_then(state, readings, a1, s1, seq![s1.request()], s2);
    lemma_then(state, readings, a2, s2, seq![s2.request()], s3);
    lemma_then(state, readings, a3, s3, seq![s3.request()], s4);
    lemma_then(state, readings, a4, s4, seq![s4.request()], s5);
    lemma_then(state, readings, a5, s5, seq![s5.request()], s6);
    lemma_then(state, readings, a6, s6, seq![s6.request()], s7);
    if readings.present {
        let s8 = s7.next(readings.answer(s7));
        let a8 = a7 + seq![s7.request()];
        lemma_one(s7, readings);
        lemma_then(state, readings, a7, s7, seq![s7.request()], s8);
        if readings.ready {
            let a9 = a8 + seq![s8.request()];
            lemma_one(s8, readings);
            lemma_then(state, readings, a8, s8, seq![s8.request()], s8.at(Phase::Connect));
            assert(boot(readings) =~= a9);
        } else {
            assert(boot(readings) =~= a8);
        }
    } else {
        assert(boot(readings) =~= a7);
    }
}

/// A host that has connected is greeted, the dashboard is drawn with the recorded states
/// and the current value, and the controls are looked at from the first button on.
pub proof fn host_is_greeted(state: ControllerState, readings: Readings)
    requires
        state.phase == Phase::Connect,
    ensures
        leads_to(
            state,
            readings,
            seq![
                Request::AwaitHost,
                Request::Buzz(startup_beep_ops()),
                Request::Display(dashboard_steps(state.controls.held, state.controls.last_cc)),
            ],
            state.at(Phase::Sample(0)),
        ),
{
    let s1 = state.at(Phase::Greet);
    let s2 = state.at(Phase::ShowDashboard);
    let a = seq![state.request()];
    let b = seq![s1.request()];
    let c = seq![s2.request()];
    lemma_one(state, readings);
    lemma_one(s1, readings);
    lemma_one(s2, readings);
    lemma_then(state, readings, a, s1, b, s2);
    lemma_then(state, readings, a + b, s2, c, state.at(Phase::Sample(0)));
    assert(a + b + c =~= seq![
        Request::AwaitHost,
        Request::Buzz(startup_beep_ops()),
        Request::Display(dashboard_steps(state.controls.held, state.controls.last_cc)),
    ]);
}

} // verus!
