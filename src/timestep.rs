//! Fixed-timestep scheduling on integer time.
//!
//! Elapsed time is counted in nanoseconds. With `tps` ticks per second one tick
//! lasts `1e9 / tps` nanoseconds, which is in general not a whole number; so the
//! accumulator is kept in units of `1 / (tps * 1e9)` seconds, in which one tick
//! is exactly `NANOS_PER_SECOND` units and a frame of `e` nanoseconds adds
//! `e * tps` units. Nothing is lost to rounding.
use vstd::prelude::*;

verus! {

/// Nanoseconds in one second; also the length of one tick in accumulator units.
pub const NANOS_PER_SECOND: u64 = 1_000_000_000;

/// The most ticks one frame may run to catch up after a stall.
pub const MAX_CATCH_UP_TICKS: u64 = 5;

/// Length of one tick, in accumulator units.
pub open spec fn unit() -> nat {
    NANOS_PER_SECOND as nat
}

/// The accumulator never holds more than this after a frame's time is added.
pub open spec fn cap() -> nat {
    MAX_CATCH_UP_TICKS as nat * unit()
}

/// Time carried into a frame plus what the frame adds, before the cap.
pub open spec fn raw_total(acc: nat, tps: nat, elapsed: nat) -> nat {
    acc + elapsed * tps
}

/// What one frame leaves after the cap has discarded excess time.
pub open spec fn capped_total(acc: nat, tps: nat, elapsed: nat) -> nat {
    let t = raw_total(acc, tps, elapsed);
    if t > cap() { cap() } else { t }
}

/// Ticks that one frame runs.
pub open spec fn frame_ticks(acc: nat, tps: nat, elapsed: nat) -> nat {
    capped_total(acc, tps, elapsed) / unit()
}

/// Accumulator after one frame.
pub open spec fn frame_rest(acc: nat, tps: nat, elapsed: nat) -> nat {
    capped_total(acc, tps, elapsed) % unit()
}

/// Accumulator after a run of frames with the given elapsed times, starting
/// from `acc`.
pub open spec fn rest_after(acc: nat, tps: nat, samples: Seq<u64>) -> nat
    decreases samples.len(),
{
    if samples.len() == 0 {
        acc
    } else {
        frame_rest(rest_after(acc, tps, samples.drop_last()), tps, samples.last() as nat)
    }
}

/// Ticks run over a run of frames with the given elapsed times, starting from
/// `acc`.
pub open spec fn ticks_after(acc: nat, tps: nat, samples: Seq<u64>) -> nat
    decreases samples.len(),
{
    if samples.len() == 0 {
        0
    } else {
        ticks_after(acc, tps, samples.drop_last()) + frame_ticks(
            rest_after(acc, tps, samples.drop_last()),
            tps,
            samples.last() as nat,
        )
    }
}

/// Sum of the elapsed times, in nanoseconds.
pub open spec fn total_elapsed(samples: Seq<u64>) -> nat
    decreases samples.len(),
{
    if samples.len() == 0 {
        0
    } else {
        total_elapsed(samples.drop_last()) + samples.last() as nat
    }
}

/// Sum of a sequence of tick counts.
pub open spec fn sum_ticks(counts: Seq<u64>) -> nat
    decreases counts.len(),
{
    if counts.len() == 0 {
        0
    } else {
        sum_ticks(counts.drop_last()) + counts.last() as nat
    }
}

/// No frame is long enough for the catch-up cap to discard time.
pub open spec fn within_catch_up(tps: nat, samples: Seq<u64>) -> bool {
    forall|i: int| 0 <= i < samples.len() ==> #[trigger] samples[i] as nat * tps <= cap() - unit()
}

/// Over any run of frames the ticks never exceed the whole number of time steps
/// in the total elapsed time, less what the catch-up cap discarded: ticks times
/// the step plus the carried remainder is at most the time fed in, the
/// remainder stays under one step, and where the cap never acted the two are
/// equal.
pub proof fn lemma_run_accounting(acc: nat, tps: nat, samples: Seq<u64>)
    requires
        acc < unit(),
    ensures
        rest_after(acc, tps, samples) < unit(),
        ticks_after(acc, tps, samples) * unit() + rest_after(acc, tps, samples)
            <= acc + total_elapsed(samples) * tps,
        within_catch_up(tps, samples) ==> ticks_after(acc, tps, samples) * unit()
            + rest_after(acc, tps, samples) == acc + total_elapsed(samples) * tps,
    decreases samples.len(),
{
    if samples.len() > 0 {
        let init = samples.drop_last();
        lemma_run_accounting(acc, tps, init);
        if within_catch_up(tps, samples) {
            let k = samples.len() - 1;
            assert(samples[k] as nat * tps <= cap() - unit());
            assert(samples[k] == samples.last());
            assert forall|i: int| 0 <= i < init.len() implies #[trigger] init[i] as nat * tps <= cap()
                - unit() by {
                assert(init[i] == samples[i]);
            }
        }
        let a = rest_after(acc, tps, init);
        let e = samples.last() as nat;
        let c = capped_total(a, tps, e);
        let t = ticks_after(acc, tps, init);
        let tt = total_elapsed(init);
        vstd::arithmetic::div_mod::lemma_fundamental_div_mod(c as int, unit() as int);
        assert((tt + e) * tps == tt * tps + e * tps) by (nonlinear_arith);
        assert((t + c / unit()) * unit() == t * unit() + (c / unit()) * unit()) by (nonlinear_arith);
        assert((c / unit()) * unit() == unit() * (c / unit())) by (nonlinear_arith);
        if within_catch_up(tps, samples) {
            assert(within_catch_up(tps, init));
        }
    } else {
        assert(total_elapsed(samples) == 0);
        assert(total_elapsed(samples) * tps == 0);
    }
}

/// The number of ticks that a fresh scheduler runs over any run of frames is at
/// most `floor(total_elapsed / time_step)`, equals it when no frame is long
/// enough to reach the catch-up cap, and the accumulator afterwards is less
/// than one time step.
pub proof fn lemma_tick_count(tps: nat, samples: Seq<u64>)
    requires
        tps > 0,
    ensures
        rest_after(0, tps, samples) < unit(),
        ticks_after(0, tps, samples) <= total_elapsed(samples) * tps / unit(),
        within_catch_up(tps, samples) ==> ticks_after(0, tps, samples) == total_elapsed(samples)
            * tps / unit(),
{
    lemma_run_accounting(0, tps, samples);
    let t = ticks_after(0, tps, samples);
    let r = rest_after(0, tps, samples);
    let x = total_elapsed(samples) * tps;
    vstd::arithmetic::div_mod::lemma_fundamental_div_mod(x as int, unit() as int);
    assert(t <= x / unit()) by (nonlinear_arith)
        requires
            t * unit() + r <= x,
            x == unit() * (x / unit()) + x % unit(),
            0 <= x % unit() < unit(),
            unit() > 0,
    ;
    if within_catch_up(tps, samples) {
        vstd::arithmetic::div_mod::lemma_fundamental_div_mod_converse(
            x as int, unit() as int, t as int, r as int);
    }
}

/// A tick rate that was not strictly positive.
#[derive(Debug, Clone, Copy, PartialEq, Eq, Structural)]
pub enum ConfigError {
    NonPositiveRate { ticks_per_second: i64 },
}

/// A validated tick rate.
#[derive(Debug, Clone, Copy, PartialEq, Eq, Structural)]
pub struct TimeStep {
    ticks_per_second: i64,
}

impl TimeStep {
    /// Ticks per second.
    pub closed spec fn rate(self) -> int {
        self.ticks_per_second as int
    }

    #[verifier::type_invariant]
    spec fn positive(self) -> bool {
        self.ticks_per_second > 0
    }

    /// Accepts a rate of at least one tick per second, and refuses any other.
    pub fn new(ticks_per_second: i64) -> (r: Result<TimeStep, ConfigError>)
        ensures
            ticks_per_second > 0 <==> r.is_ok(),
            r matches Ok(s) ==> s.rate() == ticks_per_second,
            r matches Err(e) ==> e == (ConfigError::NonPositiveRate { ticks_per_second }),
    {
        if ticks_per_second > 0 {
            Ok(TimeStep { ticks_per_second })
        } else {
            Err(ConfigError::NonPositiveRate { ticks_per_second })
        }
    }

    pub fn ticks_per_second(&self) -> (r: i64)
        ensures
            r == self.rate(),
    {
        self.ticks_per_second
    }
}

/// The accumulator-based fixed-step scheduler: it turns measured frame times
/// into a number of ticks to run.
#[derive(Debug, Clone, Copy)]
pub struct Scheduler {
    step: TimeStep,
    accumulator: u128,
}

impl Scheduler {
    /// Ticks per second.
    pub closed spec fn rate(self) -> nat {
        self.step.rate() as nat
    }

    /// Carried-over time, in accumulator units.
    pub closed spec fn carried(self) -> nat {
        self.accumulator as nat
    }

    /// Less than one tick is ever carried between frames.
    #[verifier::type_invariant]
    spec fn under_one_tick(self) -> bool {
        self.accumulator < unit()
    }

    pub fn new(step: TimeStep) -> (r: Scheduler)
        ensures
            r.rate() == step.rate(),
            r.carried() == 0,
    {
        proof {
            use_type_invariant(&step);
        }
        Scheduler { step, accumulator: 0 }
    }

    pub fn time_step(&self) -> (r: TimeStep)
        ensures
            r.rate() == self.rate(),
    {
        proof {
            use_type_invariant(&self.step);
        }
        self.step
    }

    /// Carried-over time in accumulator units (`1e9` of them make one tick).
    pub fn accumulator(&self) -> (r: u128)
        ensures
            r == self.carried(),
    {
        self.accumulator
    }

    /// Runs `advance` over each elapsed time in turn, returning the ticks of
    /// each frame.
    pub fn advance_all(&mut self, samples: &Vec<u64>) -> (counts: Vec<u64>)
        ensures
            final(self).rate() == old(self).rate(),
            final(self).carried() == rest_after(old(self).carried(), old(self).rate(), samples@),
            counts@.len() == samples@.len(),
            forall|i: int|
                0 <= i < samples@.len() ==> #[trigger] counts@[i] as nat == frame_ticks(
                    rest_after(old(self).carried(), old(self).rate(), samples@.take(i)),
                    old(self).rate(),
                    samples@[i] as nat,
                ),
            sum_ticks(counts@) == ticks_after(old(self).carried(), old(self).rate(), samples@),
    {
        let ghost acc0 = self.carried();
        let ghost tps = self.rate();
        let mut counts: Vec<u64> = Vec::new();
        let mut i: usize = 0;
        while i < samples.len()
            invariant
                self.rate() == tps,
                i <= samples@.len(),
                counts@.len() == i,
                self.carried() == rest_after(acc0, tps, samples@.take(i as int)),
                sum_ticks(counts@) == ticks_after(acc0, tps, samples@.take(i as int)),
                forall|j: int|
                    0 <= j < i ==> #[trigger] counts@[j] as nat == frame_ticks(
                        rest_after(acc0, tps, samples@.take(j)),
                        tps,
                        samples@[j] as nat,
                    ),
            decreases samples@.len() - i,
        {
            let n = self.advance(samples[i]);
            proof {
                let next = samples@.take(i + 1);
                assert(next.drop_last() =~= samples@.take(i as int));
                assert(next.last() == samples@[i as int]);
            }
            let ghost before = counts@;
            counts.push(n);
            proof {
                assert(counts@.drop_last() =~= before);
            }
            i = i + 1;
        }
        proof {
            assert(samples@.take(samples@.len() as int) =~= samples@);
        }
        counts
    }

    /// Adds a frame's measured time, caps the total at `MAX_CATCH_UP_TICKS`
    /// ticks' worth, and drains it one tick at a time. Returns how many ticks
    /// the frame must run; the remainder is carried to the next frame.
    pub fn advance(&mut self, elapsed_nanos: u64) -> (ticks: u64)
        ensures
            final(self).rate() == old(self).rate(),
            ticks as nat == frame_ticks(old(self).carried(), old(self).rate(), elapsed_nanos as nat),
            final(self).carried() == frame_rest(old(self).carried(), old(self).rate(), elapsed_nanos as nat),
            ticks <= MAX_CATCH_UP_TICKS,
    {
        proof {
            use_type_invariant(&*self);
            use_type_invariant(&self.step);
        }
        let tps = self.step.ticks_per_second as u128;
        let e = elapsed_nanos as u128;
        proof {
            assert(e * tps <= 0xffff_ffff_ffff_ffffu128 * 0x7fff_ffff_ffff_ffffu128) by (nonlinear_arith)
                requires e <= 0xffff_ffff_ffff_ffffu128, tps <= 0x7fff_ffff_ffff_ffffu128;
        }
        let added = e * tps;
        let limit: u128 = 5_000_000_000;
        let mut acc: u128 = if added >= limit - self.accumulator {
            limit
        } else {
            self.accumulator + added
        };
        assert(acc as nat == capped_total(self.carried(), self.rate(), elapsed_nanos as nat));
        let ghost total = acc as nat;
        let unit_len = NANOS_PER_SECOND as u128;
        let mut ticks: u64 = 0;
        while acc >= unit_len
            invariant
                unit_len == unit(),
                total <= cap(),
                acc as nat + ticks as nat * unit() == total,
                ticks <= MAX_CATCH_UP_TICKS,
            decreases acc,
        {
            proof {
                let t = ticks as int;
                assert((t + 1) * 1_000_000_000 == t * 1_000_000_000 + 1_000_000_000) by (nonlinear_arith);
                assert(t + 1 <= 5) by (nonlinear_arith)
                    requires t * 1_000_000_000 + 1_000_000_000 <= 5_000_000_000;
            }
            acc = acc - unit_len;
            ticks = ticks + 1;
        }
        proof {
            vstd::arithmetic::div_mod::lemma_fundamental_div_mod_converse(
                total as int, unit() as int, ticks as int, acc as int);
        }
        self.accumulator = acc;
        ticks
    }
}

} // verus!
