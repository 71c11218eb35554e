use lumentra::buzzer::{click_beep, startup_beep};
use lumentra::controller::{Action, Controller, Event};
use lumentra::lcd::{Display, LcdOp};
use lumentra::usb::EndpointError;

fn tile(index: u8, pressed: bool) -> Action {
    let mut display = Display::new();
    display.draw_button(index, pressed);
    Action::Display(display.flush())
}

fn bar(cc: u8) -> Action {
    let mut display = Display::new();
    display.draw_cc(cc);
    Action::Display(display.flush())
}

fn dashboard(buttons: [bool; 4], cc: u8) -> Vec<LcdOp> {
    let mut display = Display::new();
    display.draw_dashboard(&buttons, cc);
    display.flush()
}

/// Expects these actions one after another and gives these answers.
fn play(controller: &mut Controller, script: Vec<(Action, Event)>) {
    for (number, (action, event)) in script.into_iter().enumerate() {
        assert!(controller.action() == action, "at step {}", number);
        controller.handle(event);
    }
}

fn boot(present: bool, ready: bool) -> Controller {
    let mut controller = Controller::new();
    let mut display = Display::new();
    display.init();
    let mut script = vec![
        (Action::Display(display.flush()), Event::Done),
        (Action::Display(dashboard([false; 4], 0)), Event::Done),
        (Action::SensorPower(false), Event::Done),
        (Action::Wait(10), Event::Done),
        (Action::SensorPower(true), Event::Done),
        (Action::Wait(50), Event::Done),
        (Action::Probe { address: 0x29, register: 0xC0 }, Event::Answered(present)),
    ];
    if present {
        script.push((Action::OpenSensor, Event::Answered(ready)));
    }
    if present && ready {
        script.push((Action::SetTimingBudget(33_000), Event::Done));
    }
    play(&mut controller, script);
    assert_eq!(controller.action(), Action::AwaitHost);
    controller
}

fn greet(controller: &mut Controller, buttons: [bool; 4], cc: u8) {
    play(
        controller,
        vec![
            (Action::AwaitHost, Event::Done),
            (Action::Buzz(startup_beep()), Event::Done),
            (Action::Display(dashboard(buttons, cc)), Event::Done),
        ],
    );
}

fn looks(levels: [bool; 4]) -> Vec<(Action, Event)> {
    let mut script = vec![];
    for index in 0..4u8 {
        script.push((Action::Sample(index), Event::Level(levels[index as usize])));
    }
    script
}

#[test]
fn a_round_without_a_sensor() {
    for mut controller in [boot(false, false), boot(true, false)] {
        greet(&mut controller, [false; 4], 255);
        play(&mut controller, looks([false; 4]));
        play(&mut controller, vec![(Action::Wait(6), Event::Done)]);
        assert_eq!(controller.action(), Action::Sample(0));
    }
}

#[test]
fn a_round_with_a_press_and_a_release() {
    let mut controller = boot(false, false);
    greet(&mut controller, [false; 4], 255);
    play(
        &mut controller,
        vec![
            (Action::Sample(0), Event::Level(false)),
            (Action::Sample(1), Event::Level(true)),
            (tile(1, true), Event::Done),
            (Action::Buzz(click_beep()), Event::Done),
            (Action::Send([0x09, 0x90, 38, 110]), Event::Done),
            (Action::Sample(2), Event::Level(false)),
            (Action::Sample(3), Event::Level(false)),
            (Action::Wait(6), Event::Done),
            (Action::Sample(0), Event::Level(false)),
            (Action::Sample(1), Event::Level(false)),
            (tile(1, false), Event::Done),
            (Action::Send([0x08, 0x80, 38, 0]), Event::Done),
            (Action::Sample(2), Event::Level(false)),
            (Action::Sample(3), Event::Level(true)),
            (tile(3, true), Event::Done),
            (Action::Buzz(click_beep()), Event::Done),
            (Action::Send([0x09, 0x90, 46, 110]), Event::Done),
            (Action::Wait(6), Event::Done),
        ],
    );
    play(&mut controller, looks([false, false, false, true]));
}

#[test]
fn rounds_with_a_sensor() {
    let mut controller = boot(true, true);
    greet(&mut controller, [false; 4], 255);
    play(&mut controller, looks([false; 4]));
    play(
        &mut controller,
        vec![
            (Action::Measure, Event::Range(Some(245))),
            (Action::Send([0x0B, 0xB0, 74, 64]), Event::Done),
            (bar(64), Event::Done),
            (Action::Wait(6), Event::Done),
        ],
    );
    // A hand that keeps still, and a measurement that fails.
    for range in [Some(245), Some(242), None] {
        play(&mut controller, looks([false; 4]));
        play(
            &mut controller,
            vec![
                (Action::Measure, Event::Range(range)),
                (Action::Wait(6), Event::Done),
            ],
        );
    }
    play(&mut controller, looks([false; 4]));
    play(
        &mut controller,
        vec![
            (Action::Measure, Event::Range(Some(1000))),
            (Action::Send([0x0B, 0xB0, 74, 0]), Event::Done),
            (bar(0), Event::Done),
            (Action::Wait(6), Event::Done),
        ],
    );
}

#[test]
fn a_lost_host_is_silenced_and_awaited() {
    let mut controller = boot(false, false);
    greet(&mut controller, [false; 4], 255);
    play(
        &mut controller,
        vec![
            (Action::Sample(0), Event::Level(true)),
            (tile(0, true), Event::Done),
            (Action::Buzz(click_beep()), Event::Done),
            (
                Action::Send([0x09, 0x90, 36, 110]),
                Event::SendFailed(EndpointError::Disabled),
            ),
            (Action::Send([0x08, 0x80, 36, 0]), Event::Done),
            (Action::Send([0x08, 0x80, 38, 0]), Event::Done),
            (Action::Send([0x08, 0x80, 42, 0]), Event::Done),
            (Action::Send([0x08, 0x80, 46, 0]), Event::Done),
        ],
    );
    // The change of the button stays recorded.
    greet(&mut controller, [true, false, false, false], 255);
    play(&mut controller, looks([true, false, false, false]));
}

#[test]
fn silencing_gives_up_when_the_host_is_gone() {
    let mut controller = boot(false, false);
    greet(&mut controller, [false; 4], 255);
    play(
        &mut controller,
        vec![
            (Action::Sample(0), Event::Level(true)),
            (tile(0, true), Event::Done),
            (Action::Buzz(click_beep()), Event::Done),
            (
                Action::Send([0x09, 0x90, 36, 110]),
                Event::SendFailed(EndpointError::Disabled),
            ),
            (Action::Send([0x08, 0x80, 36, 0]), Event::Done),
            (
                Action::Send([0x08, 0x80, 38, 0]),
                Event::SendFailed(EndpointError::Disabled),
            ),
        ],
    );
    assert_eq!(controller.action(), Action::AwaitHost);
}

#[test]
fn a_lost_value_counts_as_reported_and_is_drawn_later() {
    let mut controller = boot(true, true);
    greet(&mut controller, [false; 4], 255);
    play(&mut controller, looks([false; 4]));
    play(
        &mut controller,
        vec![
            (Action::Measure, Event::Range(Some(245))),
            (
                Action::Send([0x0B, 0xB0, 74, 64]),
                Event::SendFailed(EndpointError::Disabled),
            ),
            (
                Action::Send([0x08, 0x80, 36, 0]),
                Event::SendFailed(EndpointError::Disabled),
            ),
        ],
    );
    greet(&mut controller, [false; 4], 64);
    play(&mut controller, looks([false; 4]));
    play(
        &mut controller,
        vec![
            (Action::Measure, Event::Range(Some(245))),
            (bar(64), Event::Done),
            (Action::Wait(6), Event::Done),
        ],
    );
}

#[test]
fn an_overlong_packet_stops_the_controller() {
    let mut controller = boot(true, true);
    greet(&mut controller, [false; 4], 255);
    play(&mut controller, looks([false; 4]));
    play(
        &mut controller,
        vec![
            (Action::Measure, Event::Range(Some(40))),
            (
                Action::Send([0x0B, 0xB0, 74, 127]),
                Event::SendFailed(EndpointError::BufferOverflow),
            ),
            (Action::Halt, Event::Done),
            (Action::Halt, Event::Level(true)),
        ],
    );
    assert_eq!(controller.action(), Action::Halt);
}

#[test]
fn answers_that_do_not_fit_change_nothing() {
    let mut controller = boot(false, false);
    play(
        &mut controller,
        vec![
            (Action::AwaitHost, Event::Level(true)),
            (Action::AwaitHost, Event::Range(None)),
        ],
    );
    greet(&mut controller, [false; 4], 255);
    play(
        &mut controller,
        vec![
            (Action::Sample(0), Event::Done),
            (Action::Sample(0), Event::SendFailed(EndpointError::Disabled)),
            (Action::Sample(0), Event::Level(false)),
        ],
    );
}

#[test]
fn the_notes_that_sound_are_those_of_the_held_buttons() {
    let mut controller = boot(false, false);
    greet(&mut controller, [false; 4], 255);
    let mut sounding = [false; 128];
    for levels in [
        [true, false, true, false],
        [true, true, false, false],
        [true, true, false, false],
        [false, false, false, true],
    ] {
        loop {
            let event = match controller.action() {
                Action::Sample(index) => Event::Level(levels[index as usize]),
                Action::Send(packet) => {
                    sounding[packet[2] as usize] = packet[1] == 0x90;
                    Event::Done
                }
                Action::Wait(6) => break,
                _ => Event::Done,
            };
            controller.handle(event);
        }
        controller.handle(Event::Done);
        assert_eq!([sounding[36], sounding[38], sounding[42], sounding[46]], levels);
    }
}

#[test]
fn the_value_that_was_last_redrawn_is_not_redrawn_after_a_loss() {
    let mut controller = boot(true, true);
    greet(&mut controller, [false; 4], 255);
    play(&mut controller, looks([false; 4]));
    play(
        &mut controller,
        vec![
            (Action::Measure, Event::Range(Some(245))),
            (Action::Send([0x0B, 0xB0, 74, 64]), Event::Done),
            (bar(64), Event::Done),
            (Action::Wait(6), Event::Done),
        ],
    );
    play(&mut controller, looks([false; 4]));
    play(
        &mut controller,
        vec![
            (Action::Measure, Event::Range(Some(450))),
            (
                Action::Send([0x0B, 0xB0, 74, 0]),
                Event::SendFailed(EndpointError::Disabled),
            ),
            (
                Action::Send([0x08, 0x80, 36, 0]),
                Event::SendFailed(EndpointError::Disabled),
            ),
        ],
    );
    greet(&mut controller, [false; 4], 0);
    play(&mut controller, looks([false; 4]));
    play(
        &mut controller,
        vec![
            (Action::Measure, Event::Range(Some(245))),
            (Action::Send([0x0B, 0xB0, 74, 64]), Event::Done),
            (Action::Wait(6), Event::Done),
        ],
    );
}
