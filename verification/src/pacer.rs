//! Drift-free frame pacing.

use vstd::prelude::*;
use crate::format::Fraction;

verus! {

/// The longest single wait the pacer ever requests, in microseconds: a
/// safety cap that bounds worst-case catch-up stalls to one second.
pub const MAX_DELAY_MICROS: u64 = 1_000_000;

/// Paces frame production against a wall clock the caller reads.
///
/// The pacer keeps a monotonically increasing schedule of due instants,
/// advanced by exactly one period per call. Because the schedule is a
/// running sum rather than "now plus one period", rounding of individual
/// sleeps never accumulates into drift: a caller that falls behind gets a
/// zero delay and catches up without skipping scheduled instants.
#[derive(Clone, Copy, Debug, PartialEq, Eq, Structural)]
pub struct FramePacer {
    /// Microseconds between consecutive scheduled frames.
    pub period_micros: u64,
    /// The instant, in microseconds since stream start, at which the next
    /// frame is due.
    pub next_frame_micros: u64,
}

/// The wait returned for a schedule that is due at `due` when `elapsed`
/// microseconds have passed: nothing when the caller is already behind,
/// otherwise the time to the due instant, capped at one second.
pub open spec fn delay_for(due: u64, elapsed: u64) -> u64 {
    if elapsed < due {
        if due - elapsed < MAX_DELAY_MICROS {
            (due - elapsed) as u64
        } else {
            MAX_DELAY_MICROS
        }
    } else {
        0
    }
}

impl FramePacer {
    /// A pacer whose first frame is due immediately.
    pub fn new(period_micros: u64) -> (p: FramePacer)
        ensures
            p.period_micros == period_micros,
            p.next_frame_micros == 0,
    {
        FramePacer { period_micros, next_frame_micros: 0 }
    }

    /// The frame period, in microseconds, of a configured frame rate; `None`
    /// for a zero rate, which schedules no frames.
    pub fn period_micros_for(rate: &Fraction) -> (r: Option<u64>)
        ensures
            r is Some <==> rate.numer > 0,
            r matches Some(p) ==> p == 1_000_000 * (rate.denom as int) / (rate.numer as int),
    {
        if rate.numer == 0 {
            None
        } else {
            Some(1_000_000u64 * (rate.denom as u64) / (rate.numer as u64))
        }
    }

    /// Advances the schedule by one period and returns how long the caller
    /// should wait before producing the next frame.
    ///
    /// The caller supplies the wall-clock time elapsed since stream start;
    /// the returned delay never exceeds [`MAX_DELAY_MICROS`] and never
    /// reaches past the instant the frame was due.
    pub fn next_delay(&mut self, elapsed_micros: u64) -> (delay: u64)
        requires
            old(self).next_frame_micros + old(self).period_micros <= u64::MAX,
        ensures
            final(self).period_micros == old(self).period_micros,
            final(self).next_frame_micros == old(self).next_frame_micros + old(
                self,
            ).period_micros,
            delay == delay_for(old(self).next_frame_micros, elapsed_micros),
            delay <= MAX_DELAY_MICROS,
    {
        let due = self.next_frame_micros;
        self.next_frame_micros = due + self.period_micros;
        if elapsed_micros < due {
            let wait = due - elapsed_micros;
            if wait < MAX_DELAY_MICROS {
                wait
            } else {
                MAX_DELAY_MICROS
            }
        } else {
            0
        }
    }
}

/// The pacer never asks for a wait longer than one second.
pub proof fn lemma_delay_capped(due: u64, elapsed: u64)
    ensures
        delay_for(due, elapsed) <= MAX_DELAY_MICROS,
{
}

/// The pacer never waits past the due instant: a caller that sleeps exactly
/// the returned delay wakes at or before the scheduled frame time, and a
/// caller already behind schedule is released immediately, so waiting can
/// never push the stream later than its schedule.
pub proof fn lemma_no_oversleep(due: u64, elapsed: u64)
    ensures
        elapsed < due ==> elapsed + delay_for(due, elapsed) <= due,
        due <= elapsed ==> delay_for(due, elapsed) == 0,
{
}

/// The due instant after `n` further calls on a pacer whose schedule stands
/// at `start`: each call moves it forward by one period.
pub open spec fn schedule_after(start: u64, period: u64, n: nat) -> int
    decreases n,
{
    if n == 0 {
        start as int
    } else {
        schedule_after(start, period, (n - 1) as nat) + period
    }
}

/// Over `n` calls the schedule advances by exactly `n` periods: the additive
/// counter loses nothing to rounding, so the scheduled time of frame `n`
/// converges to `n` times the period with no unbounded drift.
pub proof fn lemma_schedule_linear(start: u64, period: u64, n: nat)
    ensures
        schedule_after(start, period, n) == start + n * period,
    decreases n,
{
    if n == 0 {
        assert(schedule_after(start, period, n) == start as int);
        assert(n * period == 0) by (nonlinear_arith)
            requires
                n == 0,
        ;
    } else {
        lemma_schedule_linear(start, period, (n - 1) as nat);
        assert(schedule_after(start, period, n) == schedule_after(start, period, (n - 1) as nat)
            + period);
        assert(schedule_after(start, period, (n - 1) as nat) == start + ((n - 1) as nat) * period);
        assert(start + ((n - 1) as nat) * period + period == start + n * period)
            by (nonlinear_arith)
            requires
                n >= 1,
        ;
    }
}

} // verus!
