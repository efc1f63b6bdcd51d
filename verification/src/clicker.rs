//! The click cycle: when the clicker stops, idles or clicks, how long a
//! click is held and how long a cycle lasts, with random jitter.

use vstd::prelude::*;
use rand::Rng;
use rand::rngs::ThreadRng;
use crate::state::{AppState, Snapshot};

verus! {

/// rand's thread-local random generator, carried through as an opaque value.
#[verifier::external_type_specification]
#[verifier::external_body]
pub struct ExThreadRng(ThreadRng);

/// `Rng::gen_range(low..=high)` of rand: a value drawn uniformly from the
/// inclusive range, which the crate's source shows always lies within it.
/// It panics on an empty range, which `requires` excludes. Which value
/// comes out is left open: it rests on chance.
#[verifier::external_body]
fn gen_range_inclusive(rng: &mut ThreadRng, low: i64, high: i64) -> (r: i64)
    requires
        low <= high,
    ensures
        low <= r <= high,
{
    rng.gen_range(low..=high)
}

/// Largest number that a random jitter can reach (`u32::MAX`).
pub open spec fn max_jitter() -> int {
    0xffff_ffff
}

/// A random jitter in `-range..=range`; no draw is made when `range` is 0.
pub fn rand_jitter(rng: &mut ThreadRng, range: i64) -> (j: i64)
    requires
        range >= 0,
    ensures
        -range <= j <= range,
        range == 0 ==> j == 0,
{
    if range == 0 {
        return 0;
    }
    gen_range_inclusive(rng, -range, range)
}

/// Pause of the clicker while it is stopped, in ms.
pub const IDLE_PAUSE_MS: u64 = 5;

/// The timing of one click.
#[derive(Clone, Copy, PartialEq, Eq, Debug, Structural)]
pub struct ClickTiming {
    /// The button that is pressed and released.
    pub button: u16,
    /// How long the button stays down, in ms.
    pub hold_ms: u64,
    /// Time from the press to the next press, in ms.
    pub cycle_ms: u64,
}

/// The largest hold or cycle time: a setting plus its largest jitter.
pub open spec fn max_cycle_ms() -> int {
    2 * max_jitter()
}

impl ClickTiming {
    pub open spec fn wf(self) -> bool {
        &&& self.hold_ms <= max_cycle_ms()
        &&& 1 <= self.cycle_ms <= max_cycle_ms()
    }
}

/// The timing for the given settings and random draws: the hold time is the
/// hold setting plus its draw, but not below 0; the cycle is the interval
/// plus its draw, but not below 1 ms.
pub open spec fn timing_of(
    button: u16,
    hold_ms: u32,
    hold_draw: int,
    interval_ms: u32,
    interval_draw: int,
) -> ClickTiming {
    let hold = hold_ms + hold_draw;
    let cycle = interval_ms + interval_draw;
    ClickTiming {
        button,
        hold_ms: (if hold > 0 { hold } else { 0 }) as u64,
        cycle_ms: (if cycle > 1 { cycle } else { 1 }) as u64,
    }
}

/// One planned click; its hold and cycle times are always within bounds.
pub struct ClickPlan {
    timing: ClickTiming,
}

impl View for ClickPlan {
    type V = ClickTiming;

    closed spec fn view(&self) -> ClickTiming {
        self.timing
    }
}

/// What the clicker does next.
pub enum ClickerStep {
    /// The program is closing.
    Stop,
    /// Clicking is off: wait, then look again.
    Idle { pause_ms: u64 },
    /// Press, hold, release, and wait for the end of the cycle.
    Click(ClickPlan),
}

/// Computes a click's timing from the settings and the random draws.
pub fn plan_click(
    button: u16,
    hold_ms: u32,
    hold_draw: i64,
    interval_ms: u32,
    interval_draw: i64,
) -> (plan: ClickPlan)
    requires
        -max_jitter() <= hold_draw <= max_jitter(),
        -max_jitter() <= interval_draw <= max_jitter(),
    ensures
        plan@ == timing_of(button, hold_ms, hold_draw as int, interval_ms, interval_draw as int),
{
    let hold = hold_ms as i64 + hold_draw;
    let cycle = interval_ms as i64 + interval_draw;
    let hold_ms: u64 = if hold > 0 { hold as u64 } else { 0 };
    let cycle_ms: u64 = if cycle > 1 { cycle as u64 } else { 1 };
    ClickPlan { timing: ClickTiming { button, hold_ms, cycle_ms } }
}

impl ClickPlan {
    #[verifier::type_invariant]
    closed spec fn inv(self) -> bool {
        self.timing.wf()
    }

    pub fn timing(&self) -> (t: ClickTiming)
        ensures
            t == self@,
            t.wf(),
    {
        proof {
            use_type_invariant(self);
        }
        self.timing
    }

    /// How long the button stays down, in ns.
    pub fn hold_ns(&self) -> (ns: u64)
        ensures
            ns == self@.hold_ms * 1_000_000,
    {
        proof {
            use_type_invariant(self);
        }
        self.timing.hold_ms * 1_000_000
    }

    /// How long to wait once the button is released, `elapsed_ns` after the
    /// press: the rest of the cycle, or nothing when it is over.
    pub fn wait_after_release_ns(&self, elapsed_ns: u128) -> (ns: u64)
        ensures
            ns == (if self@.cycle_ms * 1_000_000 > elapsed_ns {
                self@.cycle_ms * 1_000_000 - elapsed_ns
            } else {
                0
            }),
    {
        proof {
            use_type_invariant(self);
        }
        let target: u64 = self.timing.cycle_ms * 1_000_000;
        if target as u128 > elapsed_ns {
            (target as u128 - elapsed_ns) as u64
        } else {
            0
        }
    }
}

/// The part of a precise wait of `total_ns` spent asleep; the rest is spent
/// watching the clock. Waits over 1.5 ms sleep all but the last 0.5 ms.
pub fn coarse_sleep_ns(total_ns: u64) -> (ns: u64)
    ensures
        ns == (if total_ns > 1_500_000 { total_ns - 500_000 } else { 0 }),
        ns <= total_ns,
        total_ns - ns <= 1_500_000,
{
    if total_ns > 1_500_000 {
        total_ns - 500_000
    } else {
        0
    }
}

/// What the clicker does in a state, for any random draws within the
/// jitter settings.
pub open spec fn step_allowed(s: Snapshot, step: ClickerStep) -> bool {
    match step {
        ClickerStep::Stop => s.shutdown,
        ClickerStep::Idle { pause_ms } => !s.shutdown && !s.running && pause_ms == IDLE_PAUSE_MS,
        ClickerStep::Click(plan) => {
            &&& !s.shutdown
            &&& s.running
            &&& exists|hold_draw: int, interval_draw: int|
                {
                    &&& -s.hold_jitter <= hold_draw <= s.hold_jitter
                    &&& -s.interval_jitter <= interval_draw <= s.interval_jitter
                    &&& plan@ == timing_of(
                        s.button_code,
                        s.hold_ms,
                        hold_draw,
                        s.interval_ms,
                        interval_draw,
                    )
                }
        },
    }
}

/// Decides the clicker's next step, drawing the hold jitter and then the
/// interval jitter when it clicks.
pub fn clicker_step(state: &AppState, rng: &mut ThreadRng) -> (step: ClickerStep)
    ensures
        step_allowed(state@, step),
{
    let s = state.snapshot();
    if s.shutdown {
        return ClickerStep::Stop;
    }
    if !s.running {
        return ClickerStep::Idle { pause_ms: IDLE_PAUSE_MS };
    }
    let hold_draw = rand_jitter(rng, s.hold_jitter as i64);
    let interval_draw = rand_jitter(rng, s.interval_jitter as i64);
    let plan = plan_click(s.button_code, s.hold_ms, hold_draw, s.interval_ms, interval_draw);
    assert(-s.hold_jitter <= hold_draw as int <= s.hold_jitter);
    ClickerStep::Click(plan)
}

} // verus!
