//! Epoch-based pacing state: converts elapsed clock time into a target count
//! of emulated cycles, excluding paused intervals.
//!
//! The pacer never reads a clock itself; every operation takes the current
//! monotonic clock reading (in nanoseconds) as an argument, so the same code
//! paces against the host's wall clock or an audio device's playback clock.

use vstd::prelude::*;

verus! {

/// Pacing state for the cycle stepper.
///
/// `start_time_ns` (the epoch) is the clock reading at which cycle zero began.
/// `emulated_cycles` counts cycles executed since that epoch, so the cycle
/// debt at clock reading `now` is `(now - start_time_ns) / cycle_period_ns`
/// minus `emulated_cycles`. Pausing records the reading at which the pause
/// began; resuming shifts the epoch forward by the paused duration, so a
/// paused interval never creates catch-up debt.
pub struct Pacer {
    /// Fixed duration of one emulated cycle in nanoseconds; at least 1.
    pub cycle_period_ns: u64,
    /// The epoch: the clock reading at which cycle zero began.
    pub start_time_ns: u64,
    /// The clock reading at which the current pause began; `None` while running.
    pub paused_time_ns: Option<u64>,
    /// Cycles the machine core has executed since the current epoch.
    pub emulated_cycles: u64,
    /// Diagnostic count of core steps taken since the current epoch;
    /// not used for pacing decisions.
    pub emulated_instructions: u64,
}

impl Pacer {
    /// Well-formedness: the cycle period is positive (it is a divisor), and a
    /// recorded pause began no earlier than the epoch, which holds of every
    /// state reachable through a monotonic clock.
    pub open spec fn wf(self) -> bool {
        &&& self.cycle_period_ns >= 1
        &&& (self.paused_time_ns matches Some(t) ==> self.start_time_ns <= t)
    }

    pub open spec fn is_paused_spec(self) -> bool {
        self.paused_time_ns is Some
    }

    /// The cycle target implied by clock reading `now_ns`: one cycle per
    /// elapsed `cycle_period_ns` since the epoch.
    pub open spec fn target_cycles_spec(self, now_ns: u64) -> int
        recommends
            self.wf(),
            now_ns >= self.start_time_ns,
    {
        (now_ns - self.start_time_ns) / (self.cycle_period_ns as int)
    }

    /// State after a pause request at reading `now_ns`: a no-op while already
    /// paused, otherwise the pause reading is recorded.
    pub open spec fn pause_spec(self, now_ns: u64) -> Pacer {
        if self.is_paused_spec() {
            self
        } else {
            Pacer { paused_time_ns: Some(now_ns), ..self }
        }
    }

    /// State after a resume request at reading `now_ns`: a no-op while
    /// running, otherwise the epoch moves forward by the paused duration and
    /// the pause reading is cleared.
    pub open spec fn resume_spec(self, now_ns: u64) -> Pacer
        recommends
            self.wf(),
            self.paused_time_ns matches Some(t) ==> now_ns >= t,
    {
        match self.paused_time_ns {
            Some(t) => Pacer {
                start_time_ns: (self.start_time_ns + (now_ns - t)) as u64,
                paused_time_ns: None,
                ..self
            },
            None => self,
        }
    }

    /// State after a reset at reading `now_ns`: a fresh epoch at `now_ns`,
    /// both counters zeroed, and running regardless of the prior state.
    pub open spec fn reset_spec(self, now_ns: u64) -> Pacer {
        Pacer {
            cycle_period_ns: self.cycle_period_ns,
            start_time_ns: now_ns,
            paused_time_ns: None,
            emulated_cycles: 0,
            emulated_instructions: 0,
        }
    }

    /// State after one core step that reported a cost of `cycles`: the cycle
    /// counter grows by the cost and the diagnostic instruction counter by one
    /// (saturating, as it decides nothing).
    pub open spec fn record_step_spec(self, cycles: u32) -> Pacer {
        Pacer {
            emulated_cycles: (self.emulated_cycles + cycles) as u64,
            emulated_instructions: if self.emulated_instructions < u64::MAX {
                (self.emulated_instructions + 1) as u64
            } else {
                self.emulated_instructions
            },
            ..self
        }
    }

    /// A fresh pacer: epoch at `now_ns`, counters zero, running.
    pub fn new(cycle_period_ns: u64, now_ns: u64) -> (p: Pacer)
        requires
            cycle_period_ns >= 1,
        ensures
            p.wf(),
            p == (Pacer {
                cycle_period_ns,
                start_time_ns: now_ns,
                paused_time_ns: None::<u64>,
                emulated_cycles: 0u64,
                emulated_instructions: 0u64,
            }),
    {
        Pacer {
            cycle_period_ns,
            start_time_ns: now_ns,
            paused_time_ns: None,
            emulated_cycles: 0,
            emulated_instructions: 0,
        }
    }

    pub fn is_paused(&self) -> (r: bool)
        ensures
            r == self.is_paused_spec(),
    {
        self.paused_time_ns.is_some()
    }

    /// The cycle target implied by clock reading `now_ns`.
    pub fn target_cycles(&self, now_ns: u64) -> (t: u64)
        requires
            self.wf(),
            now_ns >= self.start_time_ns,
        ensures
            t == self.target_cycles_spec(now_ns),
    {
        (now_ns - self.start_time_ns) / self.cycle_period_ns
    }

    /// Record that a pause began at reading `now_ns`; a no-op while already
    /// paused, so repeated pause requests keep the first pause reading.
    pub fn pause(&mut self, now_ns: u64)
        requires
            old(self).wf(),
            now_ns >= old(self).start_time_ns,
        ensures
            *final(self) == old(self).pause_spec(now_ns),
            final(self).wf(),
    {
        if self.paused_time_ns.is_none() {
            self.paused_time_ns = Some(now_ns);
        }
    }

    /// Leave the paused state at reading `now_ns`, shifting the epoch forward
    /// by the measured paused duration; a no-op while running.
    pub fn resume(&mut self, now_ns: u64)
        requires
            old(self).wf(),
            old(self).paused_time_ns matches Some(t) ==> now_ns >= t,
        ensures
            *final(self) == old(self).resume_spec(now_ns),
            final(self).wf(),
    {
        if let Some(paused_time_ns) = self.paused_time_ns {
            let paused_duration_ns = now_ns - paused_time_ns;
            self.start_time_ns = self.start_time_ns + paused_duration_ns;
            self.paused_time_ns = None;
        }
    }

    /// Start a fresh epoch at reading `now_ns`: both counters return to zero
    /// and the pacer is running, regardless of the prior state.
    pub fn reset(&mut self, now_ns: u64)
        requires
            old(self).wf(),
        ensures
            *final(self) == old(self).reset_spec(now_ns),
            final(self).wf(),
    {
        self.start_time_ns = now_ns;
        self.paused_time_ns = None;
        self.emulated_cycles = 0;
        self.emulated_instructions = 0;
    }

    /// Record one core step that reported a cost of `cycles`.
    pub fn record_step(&mut self, cycles: u32)
        requires
            old(self).emulated_cycles + cycles <= u64::MAX,
        ensures
            *final(self) == old(self).record_step_spec(cycles),
            old(self).wf() ==> final(self).wf(),
    {
        self.emulated_cycles = self.emulated_cycles + (cycles as u64);
        if self.emulated_instructions < u64::MAX {
            self.emulated_instructions = self.emulated_instructions + 1;
        }
    }
}

/// Law: with a fixed epoch, the cycle target never decreases as the clock
/// advances, so across advances at increasing readings the cycle counter
/// chases a non-decreasing target.
pub proof fn lemma_target_monotonic(p: Pacer, first_ns: u64, later_ns: u64)
    requires
        p.wf(),
        p.start_time_ns <= first_ns,
        first_ns <= later_ns,
    ensures
        p.target_cycles_spec(first_ns) <= p.target_cycles_spec(later_ns),
{
    vstd::arithmetic::div_mod::lemma_div_is_ordered(
        first_ns - p.start_time_ns,
        later_ns - p.start_time_ns,
        p.cycle_period_ns as int,
    );
}

/// Law: `pause` followed by `resume`, with no advance in between, moves the
/// epoch forward by exactly the measured paused duration and changes nothing
/// else, so a later clock reading yields the same cycle target as if the
/// pause had not occurred (no catch-up debt accrues from the paused interval).
pub proof fn lemma_pause_resume_no_debt(p: Pacer, pause_ns: u64, resume_ns: u64, next_ns: u64)
    requires
        p.wf(),
        !p.is_paused_spec(),
        p.start_time_ns <= pause_ns,
        pause_ns <= resume_ns,
        resume_ns <= next_ns,
    ensures
        ({
            let q = p.pause_spec(pause_ns).resume_spec(resume_ns);
            &&& q.start_time_ns == p.start_time_ns + (resume_ns - pause_ns)
            &&& !q.is_paused_spec()
            &&& q.emulated_cycles == p.emulated_cycles
            &&& q.emulated_instructions == p.emulated_instructions
            &&& q.cycle_period_ns == p.cycle_period_ns
            &&& q.wf()
            &&& q.target_cycles_spec(next_ns) == p.target_cycles_spec(
                (next_ns - (resume_ns - pause_ns)) as u64,
            )
        }),
{
}

} // verus!
