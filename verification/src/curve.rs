//! The software fan curve: which reading it answers to, which of its six
//! steps that reading selects, and when the loop that applies it may write.

use vstd::prelude::*;
use vstd::arithmetic::power2::{lemma2_to64_rest, lemma_pow2_pos, pow2};
use crate::celsius::{degrees, whole_degrees_are_exact, Celsius};

verus! {

/// The fixed temperatures at which the curve goes up a step, as the bits of
/// 45, 55, 65, 75 and 85 degrees. Only the speed of each step can be edited.
pub const FAN_CURVE_BREAKPOINTS: [u64; 5] = [
    0x4046_8000_0000_0000,
    0x404b_8000_0000_0000,
    0x4050_4000_0000_0000,
    0x4052_c000_0000_0000,
    0x4055_4000_0000_0000,
];

/// The speeds, in percent, of a curve that nobody has edited.
pub const DEFAULT_FAN_CURVE: [u8; 6] = [25, 35, 50, 65, 80, 100];

/// The breakpoint at the end of step `i`, in degrees.
pub open spec fn breakpoint(i: int) -> int {
    45 + 10 * i
}

/// The step that a reading selects: the first whose breakpoint it is below,
/// or the last step.
pub open spec fn curve_step(reading: Celsius) -> int {
    if reading.below(breakpoint(0)) {
        0
    } else if reading.below(breakpoint(1)) {
        1
    } else if reading.below(breakpoint(2)) {
        2
    } else if reading.below(breakpoint(3)) {
        3
    } else if reading.below(breakpoint(4)) {
        4
    } else {
        5
    }
}

/// The speeds of the steps never go down as the temperature goes up.
pub open spec fn rising(steps: Seq<u8>) -> bool {
    forall|i: int, j: int| 0 <= i <= j < steps.len() ==> steps[i] <= steps[j]
}

/// The hotter of two readings. One that is not a number loses.
pub open spec fn hotter(a: Celsius, b: Celsius) -> Celsius {
    if a.is_nan_spec() || a.colder(b) {
        b
    } else {
        a
    }
}

/// The reading that the curve answers to, from what the two sensors gave.
pub open spec fn curve_input(cpu: Option<Celsius>, gpu: Option<Celsius>) -> Option<Celsius> {
    match (cpu, gpu) {
        (Some(c), Some(g)) => Some(hotter(c, g)),
        (Some(only), None) => Some(only),
        (None, Some(only)) => Some(only),
        (None, None) => None,
    }
}

/// Each stored breakpoint stands for its number of degrees.
proof fn lemma_breakpoints(i: int)
    requires
        0 <= i < 5,
    ensures
        (Celsius { bits: FAN_CURVE_BREAKPOINTS@[i] }).value() == degrees(breakpoint(i)),
        !(Celsius { bits: FAN_CURVE_BREAKPOINTS@[i] }).is_nan_spec(),
{
    lemma2_to64_rest();
    let reading = Celsius { bits: FAN_CURVE_BREAKPOINTS@[i] };
    if i == 0 {
        whole_degrees_are_exact(reading, 45, 47);
    } else if i == 1 {
        whole_degrees_are_exact(reading, 55, 47);
    } else if i == 2 {
        whole_degrees_are_exact(reading, 65, 46);
    } else if i == 3 {
        whole_degrees_are_exact(reading, 75, 46);
    } else {
        whole_degrees_are_exact(reading, 85, 46);
    }
}

/// A reading below one breakpoint is below every later one.
proof fn lemma_below_increases(reading: Celsius, low: int, high: int)
    requires
        reading.below(low),
        low <= high,
    ensures
        reading.below(high),
{
    lemma_pow2_pos(1074);
    let unit = pow2(1074) as int;
    assert(low * unit <= high * unit) by (nonlinear_arith)
        requires
            low <= high,
            unit > 0,
    ;
}

/// Which temperature the curve answers to: the hotter of the two, because it
/// drives one speed for both fans and either die may be the loaded one. A
/// missing sensor is no error; with neither there is nothing to answer to.
pub fn curve_input_temp(cpu: Option<Celsius>, gpu: Option<Celsius>) -> (input: Option<Celsius>)
    ensures
        input == curve_input(cpu, gpu),
{
    match (cpu, gpu) {
        (Some(c), Some(g)) => if c.is_nan() || c.is_colder(g) {
            Some(g)
        } else {
            Some(c)
        },
        (Some(only), None) => Some(only),
        (None, Some(only)) => Some(only),
        (None, None) => None,
    }
}

/// The fan speed, in percent, that the curve asks for at a temperature. A
/// reading that is not a number is below no breakpoint: it gets the last step.
pub fn fan_curve_pct(temp_c: Celsius, steps: &[u8; 6]) -> (pct: u8)
    ensures
        pct == steps@[curve_step(temp_c)],
{
    let mut i: usize = 0;
    while i < 5
        invariant
            0 <= i <= 5,
            forall|k: int| 0 <= k < i ==> !temp_c.below(#[trigger] breakpoint(k)),
        decreases 5 - i,
    {
        let limit = Celsius::from_bits(FAN_CURVE_BREAKPOINTS[i]);
        proof {
            lemma_breakpoints(i as int);
        }
        if temp_c.is_colder(limit) {
            assert(temp_c.below(breakpoint(i as int)));
            return steps[i];
        }
        i = i + 1;
    }
    assert(!temp_c.below(breakpoint(0)) && !temp_c.below(breakpoint(1)) && !temp_c.below(
        breakpoint(2),
    ) && !temp_c.below(breakpoint(3)) && !temp_c.below(breakpoint(4)));
    steps[5]
}

/// The loop that applies the curve every few seconds. A write runs elsewhere
/// and may be slow, so the loop remembers whether one is under way.
#[derive(Debug, Clone, Copy, PartialEq, Eq, Structural)]
pub struct CurveLoop {
    pub applying: bool,
}

/// What one tick of the loop asks for.
pub open spec fn curve_tick(
    applying: bool,
    enabled: bool,
    cpu: Option<Celsius>,
    gpu: Option<Celsius>,
    steps: Seq<u8>,
) -> Option<u8> {
    if enabled && !applying {
        match curve_input(cpu, gpu) {
            Some(reading) => Some(steps[curve_step(reading)]),
            None => None,
        }
    } else {
        None
    }
}

impl CurveLoop {
    /// A loop with no write under way.
    pub fn new() -> (this: CurveLoop)
        ensures
            !this.applying,
    {
        CurveLoop { applying: false }
    }

    /// Whether a tick needs the sensors at all.
    pub fn wants_reading(&self, enabled: bool) -> (wanted: bool)
        ensures
            wanted == (enabled && !self.applying),
    {
        enabled && !self.applying
    }

    /// One tick. A speed comes back when the curve is switched on, no write is
    /// under way and there is a temperature; the write then counts as started.
    pub fn tick(
        &mut self,
        enabled: bool,
        cpu: Option<Celsius>,
        gpu: Option<Celsius>,
        steps: &[u8; 6],
    ) -> (pct: Option<u8>)
        ensures
            pct == curve_tick(old(self).applying, enabled, cpu, gpu, steps@),
            final(self).applying == (old(self).applying || pct is Some),
    {
        if !self.wants_reading(enabled) {
            return None;
        }
        match curve_input_temp(cpu, gpu) {
            Some(reading) => {
                self.applying = true;
                Some(fan_curve_pct(reading, steps))
            },
            None => None,
        }
    }

    /// The write that was under way has ended, well or badly.
    pub fn finished(&mut self)
        ensures
            !final(self).applying,
    {
        self.applying = false;
    }
}

/// A hotter reading never selects an earlier step.
pub proof fn hotter_never_steps_down(a: Celsius, b: Celsius)
    requires
        !a.is_nan_spec(),
        !b.is_nan_spec(),
        a.value() <= b.value(),
    ensures
        curve_step(a) <= curve_step(b),
{
}

/// On a curve that never goes down, a hotter reading never asks for less.
pub proof fn hotter_never_slows_the_fans(a: Celsius, b: Celsius, steps: Seq<u8>)
    requires
        !a.is_nan_spec(),
        !b.is_nan_spec(),
        a.value() <= b.value(),
        steps.len() == 6,
        rising(steps),
    ensures
        steps[curve_step(a)] <= steps[curve_step(b)],
{
    hotter_never_steps_down(a, b);
}

/// Step `i` covers exactly the temperatures from the breakpoint before it up
/// to, but not including, its own breakpoint.
pub proof fn step_covers_its_range(reading: Celsius, i: int)
    requires
        !reading.is_nan_spec(),
        0 <= i <= 5,
    ensures
        curve_step(reading) == i <==> ((i > 0 ==> reading.value() >= degrees(breakpoint(i - 1)))
            && (i < 5 ==> reading.value() < degrees(breakpoint(i)))),
{
    if reading.below(breakpoint(0)) {
        lemma_below_increases(reading, breakpoint(0), breakpoint(1));
    }
    if reading.below(breakpoint(1)) {
        lemma_below_increases(reading, breakpoint(1), breakpoint(2));
    }
    if reading.below(breakpoint(2)) {
        lemma_below_increases(reading, breakpoint(2), breakpoint(3));
    }
    if reading.below(breakpoint(3)) {
        lemma_below_increases(reading, breakpoint(3), breakpoint(4));
    }
}

/// With two sensors that both give a number, the curve answers at least as
/// strongly as it would to either of them alone: a loaded GPU beside an idle
/// CPU reaches the fans, and the other way round.
pub proof fn either_die_reaches_the_fans(cpu: Celsius, gpu: Celsius, steps: Seq<u8>)
    requires
        !cpu.is_nan_spec(),
        !gpu.is_nan_spec(),
        steps.len() == 6,
        rising(steps),
    ensures
        curve_input(Some(cpu), Some(gpu)) matches Some(input) && steps[curve_step(input)]
            >= steps[curve_step(cpu)] && steps[curve_step(input)] >= steps[curve_step(gpu)],
{
    let input = hotter(cpu, gpu);
    hotter_never_slows_the_fans(cpu, input, steps);
    hotter_never_slows_the_fans(gpu, input, steps);
}

/// The reading that the curve answers to is one that a sensor gave, and no
/// sensor that gave a number gave a hotter one.
pub proof fn input_is_the_hottest_reading(cpu: Option<Celsius>, gpu: Option<Celsius>)
    ensures
        curve_input(cpu, gpu) is None <==> cpu is None && gpu is None,
        curve_input(cpu, gpu) matches Some(input) ==> {
            &&& (cpu == Some(input) || gpu == Some(input))
            &&& (cpu matches Some(c) ==> !input.colder(c))
            &&& (gpu matches Some(g) ==> !input.colder(g))
            &&& (input.is_nan_spec() ==> (cpu matches Some(c) ==> c.is_nan_spec()) && (gpu matches Some(
                g,
            ) ==> g.is_nan_spec()))
        },
{
}

/// Without a reading the fans are left alone, whatever the loop is doing.
pub proof fn no_reading_leaves_the_fans_alone(applying: bool, enabled: bool, steps: Seq<u8>)
    ensures
        curve_tick(applying, enabled, None, None, steps) is None,
{
}

/// The curve that nobody has edited never goes down and ends at full speed.
pub proof fn the_default_curve_rises()
    ensures
        rising(DEFAULT_FAN_CURVE@),
        DEFAULT_FAN_CURVE@[5] == 100,
{
}

/// A reading that is not a number gets the last step, the fastest of a curve
/// that never goes down.
pub proof fn no_number_means_the_last_step(reading: Celsius)
    requires
        reading.is_nan_spec(),
    ensures
        curve_step(reading) == 5,
{
}

/// One tick of the loop, or the end of the write that a tick started.
pub enum CurveEvent {
    Tick { enabled: bool, cpu: Option<Celsius>, gpu: Option<Celsius>, steps: Seq<u8> },
    Finished,
}

/// What the loop does at an event, and whether a write is under way after it.
pub open spec fn curve_next(applying: bool, event: CurveEvent) -> (Option<u8>, bool) {
    match event {
        CurveEvent::Tick { enabled, cpu, gpu, steps } => {
            let pct = curve_tick(applying, enabled, cpu, gpu, steps);
            (pct, applying || pct is Some)
        },
        CurveEvent::Finished => (None, false),
    }
}

/// Whether a write is under way after a run of events.
pub open spec fn applying_after(applying: bool, events: Seq<CurveEvent>) -> bool
    decreases events.len(),
{
    if events.len() == 0 {
        applying
    } else {
        curve_next(applying_after(applying, events.drop_last()), events.last()).1
    }
}

/// While a write is under way no tick starts another, however many come,
/// until the write ends.
pub proof fn one_write_at_a_time(events: Seq<CurveEvent>, next: CurveEvent)
    requires
        forall|i: int| 0 <= i < events.len() ==> !(#[trigger] events[i] is Finished),
    ensures
        applying_after(true, events),
        curve_next(applying_after(true, events), next).0 is None,
    decreases events.len(),
{
    if events.len() > 0 {
        one_write_at_a_time(events.drop_last(), next);
        assert(!(events[events.len() - 1] is Finished));
    }
}

/// A number of degrees lies between the breakpoint before step `i` and that of
/// step `i`: 45, 55, 65, 75 and 85 degrees, in units of two to the power -1074.
pub open spec fn in_range_of_step(number: int, i: int) -> bool {
    (i > 0 ==> number >= (35 + 10 * i) * pow2(1074)) && (i < 5 ==> number < (45 + 10 * i) * pow2(
        1074,
    ))
}

/// The ranges of the steps leave no gap and no overlap: every number is in the
/// range of one of the six and of no other.
pub proof fn every_number_has_one_step(reading: Celsius, i: int)
    requires
        !reading.is_nan_spec(),
        0 <= i <= 5,
    ensures
        0 <= curve_step(reading) <= 5,
        in_range_of_step(reading.value(), curve_step(reading)),
        in_range_of_step(reading.value(), i) ==> i == curve_step(reading),
{
    step_covers_its_range(reading, curve_step(reading));
    step_covers_its_range(reading, i);
}

/// A tick with the curve switched on, no write under way and two sensors that
/// give numbers asks for the speed of the step that holds the larger of the two
/// numbers, whichever sensor it came from.
pub proof fn a_tick_answers_the_larger_number(
    cpu: Celsius,
    gpu: Celsius,
    steps: Seq<u8>,
    i: int,
)
    requires
        !cpu.is_nan_spec(),
        !gpu.is_nan_spec(),
        steps.len() == 6,
        0 <= i <= 5,
        in_range_of_step(
            if cpu.value() >= gpu.value() {
                cpu.value()
            } else {
                gpu.value()
            },
            i,
        ),
    ensures
        curve_tick(false, true, Some(cpu), Some(gpu), steps) == Some(steps[i]),
        curve_tick(false, true, Some(gpu), Some(cpu), steps) == Some(steps[i]),
{
    every_number_has_one_step(cpu, i);
    every_number_has_one_step(gpu, i);
}

/// A tick with one sensor, or with one whose partner gives no number, asks for
/// the speed of the step that holds that sensor's number.
pub proof fn a_tick_answers_the_only_number(
    number: Celsius,
    broken: Celsius,
    steps: Seq<u8>,
    i: int,
)
    requires
        !number.is_nan_spec(),
        broken.is_nan_spec(),
        steps.len() == 6,
        0 <= i <= 5,
        in_range_of_step(number.value(), i),
    ensures
        curve_tick(false, true, Some(number), None, steps) == Some(steps[i]),
        curve_tick(false, true, None, Some(number), steps) == Some(steps[i]),
        curve_tick(false, true, Some(number), Some(broken), steps) == Some(steps[i]),
        curve_tick(false, true, Some(broken), Some(number), steps) == Some(steps[i]),
        curve_tick(false, true, Some(broken), Some(broken), steps) == Some(steps[5]),
        curve_tick(false, true, Some(broken), None, steps) == Some(steps[5]),
        curve_tick(false, true, None, Some(broken), steps) == Some(steps[5]),
{
    every_number_has_one_step(number, i);
}

/// On a rising curve a tick asks for at least what either reading calls for on
/// its own.
pub proof fn a_tick_serves_both_dies(cpu: Celsius, gpu: Celsius, steps: Seq<u8>)
    requires
        !cpu.is_nan_spec(),
        !gpu.is_nan_spec(),
        steps.len() == 6,
        forall|i: int, j: int| 0 <= i <= j < 6 ==> steps[i] <= steps[j],
    ensures
        curve_tick(false, true, Some(cpu), Some(gpu), steps) matches Some(pct) && (curve_tick(
            false,
            true,
            Some(cpu),
            None,
            steps,
        ) matches Some(alone) && pct >= alone) && (curve_tick(
            false,
            true,
            None,
            Some(gpu),
            steps,
        ) matches Some(alone) && pct >= alone),
{
    either_die_reaches_the_fans(cpu, gpu, steps);
}

/// A tick asks for a speed exactly when the curve is switched on, no write is
/// under way and a sensor gave a reading.
pub proof fn when_a_tick_asks(
    applying: bool,
    enabled: bool,
    cpu: Option<Celsius>,
    gpu: Option<Celsius>,
    steps: Seq<u8>,
)
    ensures
        curve_tick(applying, enabled, cpu, gpu, steps) is Some <==> enabled && !applying && (
        cpu is Some || gpu is Some),
{
}

} // verus!
