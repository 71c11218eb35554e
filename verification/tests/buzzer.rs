use lumentra::buzzer::{click_beep, startup_beep, tone, BuzzerOp};

fn time_us(ops: &[BuzzerOp]) -> u64 {
    let mut total = 0;
    for op in ops {
        total += match op {
            BuzzerOp::DelayUs(us) => *us,
            BuzzerOp::DelayMs(ms) => 1000 * ms,
            BuzzerOp::High | BuzzerOp::Low => 0,
        };
    }
    total
}

#[test]
fn a_tone_is_a_square_wave() {
    // Half a period of 1 kHz is 500 us; three periods fit in 3 ms.
    let period = [
        BuzzerOp::High,
        BuzzerOp::DelayUs(500),
        BuzzerOp::Low,
        BuzzerOp::DelayUs(500),
    ];
    let ops = tone(1000, 3);
    assert_eq!(ops.len(), 12);
    for cycle in ops.chunks(4) {
        assert_eq!(cycle, period);
    }
}

#[test]
fn a_tone_shorter_than_its_period_is_silent() {
    assert_eq!(tone(100, 9), vec![]);
    assert_eq!(tone(440, 0), vec![]);
}

#[test]
fn the_highest_frequency() {
    assert_eq!(tone(500_000, 1).len(), 4 * 500);
}

#[test]
fn tones_keep_time() {
    for (frequency, duration) in [(880u32, 55u32), (1320, 55), (1800, 18), (33, 1000), (7, 200)] {
        let period = 2 * (500_000 / frequency) as u64;
        let played = time_us(&tone(frequency, duration));
        let asked = 1000 * duration as u64;
        assert!(played <= asked && asked < played + period);
    }
}

#[test]
fn clicks() {
    let ops = click_beep();
    assert_eq!(ops.len(), 4 * 32);
    assert_eq!(ops[1], BuzzerOp::DelayUs(277));
    assert_eq!(ops[ops.len() - 2], BuzzerOp::Low);
}

#[test]
fn greeting() {
    let ops = startup_beep();
    assert_eq!(ops.len(), 4 * 48 + 1 + 4 * 72);
    assert_eq!(ops[1], BuzzerOp::DelayUs(568));
    assert_eq!(ops[4 * 48], BuzzerOp::DelayMs(35));
    assert_eq!(ops[4 * 48 + 2], BuzzerOp::DelayUs(378));
}
