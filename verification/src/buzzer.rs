//! The sounds of the buzzer, as square waves on its pin.
use vstd::arithmetic::div_mod::{lemma_fundamental_div_mod, lemma_mod_bound};
use vstd::prelude::*;

verus! {

/// One thing to do on the buzzer's pin.
#[derive(Debug, Clone, Copy, PartialEq, Eq)]
pub enum BuzzerOp {
    /// Drive the pin high.
    High,
    /// Drive the pin low.
    Low,
    /// Wait this many microseconds.
    DelayUs(u64),
    /// Wait this many milliseconds.
    DelayMs(u64),
}

/// Half a period of a tone, in whole microseconds.
pub open spec fn half_period_us(frequency_hz: u32) -> int {
    500_000int / frequency_hz as int
}

/// How many whole periods of a tone fit in a time.
pub open spec fn tone_cycles(frequency_hz: u32, duration_ms: u32) -> int {
    duration_ms * 1000 / (2 * half_period_us(frequency_hz))
}

/// A square wave: so many periods, each high for half of it, then low.
pub open spec fn square_wave(half_us: u64, cycles: nat) -> Seq<BuzzerOp> {
    Seq::new(
        4 * cycles,
        |i: int|
            if i % 4 == 0 {
                BuzzerOp::High
            } else if i % 4 == 2 {
                BuzzerOp::Low
            } else {
                BuzzerOp::DelayUs(half_us)
            },
    )
}

/// A tone.
pub open spec fn tone_ops(frequency_hz: u32, duration_ms: u32) -> Seq<BuzzerOp> {
    square_wave(
        half_period_us(frequency_hz) as u64,
        tone_cycles(frequency_hz, duration_ms) as nat,
    )
}

/// Two rising tones with a short silence between them.
pub open spec fn startup_beep_ops() -> Seq<BuzzerOp> {
    tone_ops(880, 55) + seq![BuzzerOp::DelayMs(35)] + tone_ops(1320, 55)
}

/// A short high tone.
pub open spec fn click_beep_ops() -> Seq<BuzzerOp> {
    tone_ops(1800, 18)
}

/// How long a sequence of operations takes, in microseconds.
pub open spec fn playing_time_us(ops: Seq<BuzzerOp>) -> int
    decreases ops.len(),
{
    if ops.len() == 0 {
        0
    } else {
        playing_time_us(ops.drop_last()) + match ops.last() {
            BuzzerOp::DelayUs(us) => us as int,
            BuzzerOp::DelayMs(ms) => 1000 * ms,
            BuzzerOp::High => 0,
            BuzzerOp::Low => 0,
        }
    }
}

/// Plays a tone. The frequency has a half period of at least a microsecond, and the
/// duration in microseconds fits in 32 bits.
pub fn tone(frequency_hz: u32, duration_ms: u32) -> (ops: Vec<BuzzerOp>)
    requires
        0 < frequency_hz <= 500_000,
        duration_ms * 1000 <= u32::MAX,
    ensures
        ops@ == tone_ops(frequency_hz, duration_ms),
{
    let half_period: u32 = 500_000 / frequency_hz;
    proof {
        lemma_half_period(frequency_hz);
    }
    let cycles: u32 = duration_ms * 1000 / (half_period * 2);
    let ghost half = half_period as u64;
    let mut ops: Vec<BuzzerOp> = Vec::new();
    let mut played: u32 = 0;
    while played < cycles
        invariant
            played <= cycles,
            half == half_period,
            ops@ =~= square_wave(half, played as nat),
        decreases cycles - played,
    {
        ops.push(BuzzerOp::High);
        ops.push(BuzzerOp::DelayUs(half_period as u64));
        ops.push(BuzzerOp::Low);
        ops.push(BuzzerOp::DelayUs(half_period as u64));
        played += 1;
    }
    ops
}

/// Greets a host that has connected.
pub fn startup_beep() -> (ops: Vec<BuzzerOp>)
    ensures
        ops@ == startup_beep_ops(),
{
    let mut ops: Vec<BuzzerOp> = tone(880, 55);
    let mut second: Vec<BuzzerOp> = tone(1320, 55);
    ops.push(BuzzerOp::DelayMs(35));
    ops.append(&mut second);
    assert(ops@ =~= startup_beep_ops());
    ops
}

/// Confirms a pressed button.
pub fn click_beep() -> (ops: Vec<BuzzerOp>)
    ensures
        ops@ == click_beep_ops(),
{
    tone(1800, 18)
}

proof fn lemma_half_period(frequency_hz: u32)
    requires
        0 < frequency_hz <= 500_000,
    ensures
        1 <= half_period_us(frequency_hz) <= 500_000,
{
    let f = frequency_hz as int;
    assert(1 <= 500_000int / f <= 500_000) by (nonlinear_arith)
        requires
            0 < f <= 500_000,
    ;
}

proof fn lemma_square_wave_time(half_us: u64, cycles: nat)
    ensures
        playing_time_us(square_wave(half_us, cycles)) == 2 * half_us * cycles,
    decreases cycles,
{
    if cycles > 0 {
        let all = square_wave(half_us, cycles);
        let less = (cycles - 1) as nat;
        lemma_square_wave_time(half_us, less);
        reveal_with_fuel(playing_time_us, 5);
        assert(all.drop_last().drop_last().drop_last().drop_last() =~= square_wave(half_us, less));
        assert(2 * half_us * cycles == 2 * half_us * less + 2 * half_us) by (nonlinear_arith)
            requires
                cycles == less + 1,
        ;
    } else {
        assert(2 * half_us * cycles == 0) by (nonlinear_arith)
            requires
                cycles == 0,
        ;
    }
}

/// A tone takes no longer than it is asked to, and falls short of that by less than one
/// of its periods.
pub proof fn tone_keeps_time(frequency_hz: u32, duration_ms: u32)
    requires
        0 < frequency_hz <= 500_000,
    ensures
        playing_time_us(tone_ops(frequency_hz, duration_ms)) <= 1000 * duration_ms,
        1000 * duration_ms < playing_time_us(tone_ops(frequency_hz, duration_ms)) + 2
            * half_period_us(frequency_hz),
{
    lemma_half_period(frequency_hz);
    let half = half_period_us(frequency_hz);
    let period = 2 * half;
    let total = duration_ms * 1000;
    let cycles = total / period;
    assert(cycles >= 0) by (nonlinear_arith)
        requires
            total >= 0,
            period > 0,
            cycles == total / period,
    ;
    lemma_square_wave_time(half as u64, cycles as nat);
    lemma_fundamental_div_mod(total, period);
    lemma_mod_bound(total, period);
}

/// A tone leaves the pin low: its last level is low, if it has any.
pub proof fn tone_ends_low(frequency_hz: u32, duration_ms: u32)
    requires
        0 < frequency_hz <= 500_000,
    ensures
        ({
            let ops = tone_ops(frequency_hz, duration_ms);
            ops.len() > 0 ==> ops[ops.len() - 2] == BuzzerOp::Low && ops.last()
                == BuzzerOp::DelayUs(half_period_us(frequency_hz) as u64)
        }),
{
}

/// The level of the pin after a sequence of operations; it starts low.
pub open spec fn pin_after(ops: Seq<BuzzerOp>) -> bool
    decreases ops.len(),
{
    if ops.len() == 0 {
        false
    } else {
        match ops.last() {
            BuzzerOp::High => true,
            BuzzerOp::Low => false,
            _ => pin_after(ops.drop_last()),
        }
    }
}

/// How long the pin is at a level during a sequence of operations, in microseconds.
pub open spec fn time_at_us(ops: Seq<BuzzerOp>, level: bool) -> int
    decreases ops.len(),
{
    if ops.len() == 0 {
        0
    } else {
        time_at_us(ops.drop_last(), level) + if pin_after(ops.drop_last()) == level {
            match ops.last() {
                BuzzerOp::DelayUs(us) => us as int,
                BuzzerOp::DelayMs(ms) => 1000 * ms,
                _ => 0,
            }
        } else {
            0
        }
    }
}

/// How often the pin goes up during a sequence of operations.
pub open spec fn rises(ops: Seq<BuzzerOp>) -> int
    decreases ops.len(),
{
    if ops.len() == 0 {
        0
    } else {
        rises(ops.drop_last()) + if ops.last() is High && !pin_after(ops.drop_last()) {
            1int
        } else {
            0
        }
    }
}

/// A tone is a row of equal periods: the pin goes high, stays so for half a period, goes
/// low, and stays so for the other half. Half a period is the longest whole number of
/// microseconds of which a second holds twice the frequency, and there are as many periods
/// as fit in the duration.
pub proof fn tone_is_periodic(frequency_hz: u32, duration_ms: u32) -> (wave: (int, int))
    requires
        0 < frequency_hz <= 500_000,
    ensures
        ({
            let (half, periods) = wave;
            let ops = tone_ops(frequency_hz, duration_ms);
            &&& 1 <= half <= 500_000
            &&& half * frequency_hz <= 500_000 < (half + 1) * frequency_hz
            &&& periods * (2 * half) <= duration_ms * 1000 < (periods + 1) * (2 * half)
            &&& ops.len() == 4 * periods
            &&& forall|i: int| 0 <= i < ops.len() && i % 4 == 0 ==> #[trigger] ops[i] is High
            &&& forall|i: int| 0 <= i < ops.len() && i % 4 == 2 ==> #[trigger] ops[i] is Low
            &&& forall|i: int|
                0 <= i < ops.len() && (i % 4 == 1 || i % 4 == 3) ==> (#[trigger] ops[i]
                    matches BuzzerOp::DelayUs(us) && us == half)
        }),
{
    lemma_half_period(frequency_hz);
    let f = frequency_hz as int;
    let half = half_period_us(frequency_hz);
    lemma_fundamental_div_mod(500_000, f);
    lemma_mod_bound(500_000, f);
    assert(half * f == f * half) by (nonlinear_arith);
    assert((half + 1) * f == half * f + f) by (nonlinear_arith);
    let total = duration_ms * 1000;
    let period = 2 * half;
    let periods = tone_cycles(frequency_hz, duration_ms);
    lemma_fundamental_div_mod(total, period);
    lemma_mod_bound(total, period);
    assert(periods * period == period * periods) by (nonlinear_arith);
    assert((periods + 1) * period == periods * period + period) by (nonlinear_arith);
    assert(periods >= 0) by (nonlinear_arith)
        requires
            (periods + 1) * period > 0,
            period > 0,
    ;
    (half, periods)
}

proof fn lemma_wave_levels(ops: Seq<BuzzerOp>, half: int, periods: int)
    requires
        periods >= 0,
        ops.len() == 4 * periods,
        forall|i: int| 0 <= i < ops.len() && i % 4 == 0 ==> #[trigger] ops[i] is High,
        forall|i: int| 0 <= i < ops.len() && i % 4 == 2 ==> #[trigger] ops[i] is Low,
        forall|i: int|
            0 <= i < ops.len() && (i % 4 == 1 || i % 4 == 3) ==> (#[trigger] ops[i]
                matches BuzzerOp::DelayUs(us) && us == half),
    ensures
        !pin_after(ops),
        rises(ops) == periods,
        time_at_us(ops, true) == half * periods,
        time_at_us(ops, false) == half * periods,
    decreases periods,
{
    if periods == 0 {
        assert(half * periods == 0) by (nonlinear_arith)
            requires
                periods == 0,
        ;
    } else {
        let a = ops.drop_last();
        let b = a.drop_last();
        let c = b.drop_last();
        let d = c.drop_last();
        let n = ops.len() as int;
        assert(ops.last() == ops[n - 1] && a.last() == ops[n - 2] && b.last() == ops[n - 3]
            && c.last() == ops[n - 4]);
        lemma_wave_levels(d, half, periods - 1);
        assert(half * periods == half * (periods - 1) + half) by (nonlinear_arith);
        reveal_with_fuel(pin_after, 5);
        reveal_with_fuel(rises, 5);
        reveal_with_fuel(time_at_us, 5);
    }
}

/// Over a whole tone the pin goes up once for every period and is high exactly as long as
/// it is low; a tone that is long enough for one period is heard.
pub proof fn tone_is_high_as_long_as_low(frequency_hz: u32, duration_ms: u32)
    requires
        0 < frequency_hz <= 500_000,
    ensures
        ({
            let ops = tone_ops(frequency_hz, duration_ms);
            &&& time_at_us(ops, true) == time_at_us(ops, false)
            &&& 4 * rises(ops) == ops.len()
            &&& !pin_after(ops)
            &&& 1_000_000 <= duration_ms * 1000 * frequency_hz ==> rises(ops) >= 1
        }),
{
    let (half, periods) = tone_is_periodic(frequency_hz, duration_ms);
    let f = frequency_hz as int;
    let d = duration_ms * 1000;
    assert(periods >= 0) by (nonlinear_arith)
        requires
            0 <= d < (periods + 1) * (2 * half),
            half >= 1,
    ;
    lemma_wave_levels(tone_ops(frequency_hz, duration_ms), half, periods);
    if 1_000_000 <= d * f {
        assert(periods >= 1) by (nonlinear_arith)
            requires
                1_000_000 <= d * f,
                d < (periods + 1) * (2 * half),
                half * f <= 500_000,
                half >= 1,
                f > 0,
                periods >= 0,
        ;
    }
}

/// The click is 32 periods of 554 microseconds.
pub proof fn click_in_numbers()
    ensures
        ({
            let ops = click_beep_ops();
            &&& ops.len() == 128
            &&& rises(ops) == 32
            &&& time_at_us(ops, true) == 32 * 277
            &&& time_at_us(ops, false) == 32 * 277
        }),
{
    let (half, periods) = tone_is_periodic(1800, 18);
    assert(half == 277);
    assert(periods == 32) by (nonlinear_arith)
        requires
            half == 277,
            periods * (2 * half) <= 18000 < (periods + 1) * (2 * half),
    ;
    assert(half * periods == 277 * 32);
    lemma_wave_levels(click_beep_ops(), half, periods);
}

/// The greeting is 48 periods of 1136 microseconds, a silence of 35 milliseconds, and 72
/// periods of 756 microseconds.
pub proof fn greeting_in_numbers()
    ensures
        ({
            let ops = startup_beep_ops();
            let first = ops.take(192);
            let second = ops.skip(193);
            &&& ops.len() == 481
            &&& ops[192] == BuzzerOp::DelayMs(35)
            &&& rises(first) == 48
            &&& time_at_us(first, true) == 48 * 568
            &&& time_at_us(first, false) == 48 * 568
            &&& rises(second) == 72
            &&& time_at_us(second, true) == 72 * 378
            &&& time_at_us(second, false) == 72 * 378
        }),
{
    let (half1, periods1) = tone_is_periodic(880, 55);
    assert(half1 == 568);
    assert(periods1 == 48) by (nonlinear_arith)
        requires
            half1 == 568,
            periods1 * (2 * half1) <= 55000 < (periods1 + 1) * (2 * half1),
    ;
    assert(half1 * periods1 == 568 * 48);
    let (half2, periods2) = tone_is_periodic(1320, 55);
    assert(half2 == 378);
    assert(periods2 == 72) by (nonlinear_arith)
        requires
            half2 == 378,
            periods2 * (2 * half2) <= 55000 < (periods2 + 1) * (2 * half2),
    ;
    assert(half2 * periods2 == 378 * 72);
    let ops = startup_beep_ops();
    assert(ops.take(192) =~= tone_ops(880, 55));
    assert(ops.skip(193) =~= tone_ops(1320, 55));
    lemma_wave_levels(tone_ops(880, 55), half1, periods1);
    lemma_wave_levels(tone_ops(1320, 55), half2, periods2);
}

} // verus!
