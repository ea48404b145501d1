use vstd::prelude::*;

verus! {

/// Whether the one-shot hardware alarm has been scheduled and its
/// interrupt unmasked.
#[derive(Clone, Copy, PartialEq, Eq, Structural, Debug)]
pub enum AlarmState {
    Idle,
    Armed,
}

/// The state shared between the timer interrupt handler and the
/// foreground loop: the tick counter and the armed state of the alarm
/// that drives it, together with the fixed rearm period.
///
/// The counter accumulates: the handler is its only incrementer and the
/// foreground loop only reads it, so no tick is ever lost between two
/// reads.  The platform layer keeps one value of this type behind a
/// critical section that masks interrupts, so every transition below runs
/// to completion before the other context can observe the state.
pub struct SharedCounter {
    pub count: i32,
    pub alarm: AlarmState,
    pub period_us: u32,
}

impl SharedCounter {
    /// A counter that starts at `initial` with the alarm not yet armed;
    /// `period_us` is the fixed tick period the alarm is rearmed for.
    pub fn new(initial: i32, period_us: u32) -> (s: SharedCounter)
        ensures
            s.count == initial,
            s.alarm == AlarmState::Idle,
            s.period_us == period_us,
    {
        SharedCounter { count: initial, alarm: AlarmState::Idle, period_us }
    }

    /// The Idle -> Armed transition of initialization.  The caller must
    /// schedule the hardware alarm for the returned number of time units
    /// and unmask its interrupt, inside the same critical section.
    pub fn arm(&mut self) -> (period: u32)
        requires
            old(self).alarm == AlarmState::Idle,
        ensures
            final(self).alarm == AlarmState::Armed,
            final(self).count == old(self).count,
            final(self).period_us == old(self).period_us,
            period == old(self).period_us,
    {
        self.alarm = AlarmState::Armed;
        self.period_us
    }

    /// The Armed -> Firing -> Armed transition of the interrupt handler:
    /// one alarm expiry adds exactly one to the counter and leaves the
    /// alarm armed.  The caller must clear the pending interrupt flag and
    /// reschedule the hardware alarm for the returned number of time
    /// units, inside the same critical section.
    pub fn on_alarm(&mut self) -> (period: u32)
        requires
            old(self).alarm == AlarmState::Armed,
            old(self).count < i32::MAX,
        ensures
            final(self).count == old(self).count + 1,
            final(self).count == count_after_ticks(old(self).count as int, 1),
            final(self).alarm == AlarmState::Armed,
            final(self).period_us == old(self).period_us,
            period == old(self).period_us,
    {
        self.count = self.count + 1;
        proof {
            lemma_tick_monotonic(old(self).count as int, 1);
        }
        self.period_us
    }

    /// The foreground read: it observes the whole committed count, never
    /// a partially applied increment, and leaves the state unchanged.
    pub fn read(&self) -> (v: i32)
        ensures
            v == self.count,
    {
        self.count
    }
}

/// The counter after `n` alarm firings, each applying the increment of
/// `SharedCounter::on_alarm`, starting from `c0`.
pub open spec fn count_after_ticks(c0: int, n: nat) -> int
    decreases n,
{
    if n == 0 {
        c0
    } else {
        count_after_ticks(c0, (n - 1) as nat) + 1
    }
}

/// Tick monotonicity: after `n` timer-interrupt firings with no
/// intervening foreground read, the counter equals its value before those
/// firings plus `n`, for every `n >= 0`.
pub proof fn lemma_tick_monotonic(c0: int, n: nat)
    ensures
        count_after_ticks(c0, n) == c0 + n,
    decreases n,
{
    if n > 0 {
        lemma_tick_monotonic(c0, (n - 1) as nat);
    }
}

} // verus!
