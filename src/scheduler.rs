use vstd::prelude::*;
use crate::round::RoundOutcome;

verus! {

/// Why a run cannot be scheduled.
#[derive(Debug, Clone, Copy, PartialEq, Eq, Structural)]
pub enum ScheduleError {
    /// A capacity of zero would never admit a round.
    ZeroParallelism,
}

/// What the driver of a run must do next.
#[derive(Debug, Clone, Copy, PartialEq, Eq, Structural)]
pub enum SchedulerAction {
    /// Take a unit of capacity and start the round with this index.
    Launch { round: u64 },
    /// Capacity is used up or every round has started: wait for one to end.
    AwaitCompletion,
    /// Every round has started and ended.
    Done,
}

/// Something the driver reports back to the scheduler.
#[derive(Debug, Clone, Copy, PartialEq, Eq, Structural)]
pub enum SchedulerEvent {
    /// The round that `Launch` named has started.
    Launched,
    /// A running round ended; `completed` is false for a partial failure.
    Finished { completed: bool },
}

/// Admission control for a run of `total_rounds` rounds with at most
/// `parallelism` of them in flight, and the count of how they ended.
#[derive(Debug, Clone, Copy, PartialEq, Eq, Structural)]
pub struct Scheduler {
    pub total_rounds: u64,
    pub parallelism: u64,
    pub launched: u64,
    pub active: u64,
    pub completed_rounds: u64,
    pub failed_rounds: u64,
}

impl Scheduler {
    /// The bookkeeping is consistent and within capacity.
    pub open spec fn wf(self) -> bool {
        &&& self.parallelism >= 1
        &&& self.launched <= self.total_rounds
        &&& self.active <= self.parallelism
        &&& self.completed_rounds + self.failed_rounds + self.active == self.launched
    }

    /// The action owed in this state.
    pub open spec fn action_spec(self) -> SchedulerAction {
        if self.launched < self.total_rounds && self.active < self.parallelism {
            SchedulerAction::Launch { round: self.launched }
        } else if self.active > 0 {
            SchedulerAction::AwaitCompletion
        } else {
            SchedulerAction::Done
        }
    }

    /// The state after `e`; an event that the state does not allow (a launch
    /// that was not asked for, an end with no round in flight) changes nothing.
    pub open spec fn apply(self, e: SchedulerEvent) -> Scheduler {
        match e {
            SchedulerEvent::Launched => if self.action_spec() is Launch {
                Scheduler { launched: (self.launched + 1) as u64, active: (self.active + 1) as u64, ..self }
            } else {
                self
            },
            SchedulerEvent::Finished { completed } => if self.active > 0 {
                if completed {
                    Scheduler {
                        active: (self.active - 1) as u64,
                        completed_rounds: (self.completed_rounds + 1) as u64,
                        ..self
                    }
                } else {
                    Scheduler {
                        active: (self.active - 1) as u64,
                        failed_rounds: (self.failed_rounds + 1) as u64,
                        ..self
                    }
                }
            } else {
                self
            },
        }
    }

    /// A scheduler for `total_rounds` rounds with capacity `parallelism`;
    /// fails exactly when the capacity is zero.
    pub fn new(total_rounds: u64, parallelism: u64) -> (r: Result<Scheduler, ScheduleError>)
        ensures
            parallelism == 0 <==> r is Err,
            r is Err ==> r == Err::<Scheduler, ScheduleError>(ScheduleError::ZeroParallelism),
            r matches Ok(s) ==> s.wf() && s == (Scheduler {
                total_rounds,
                parallelism,
                launched: 0,
                active: 0,
                completed_rounds: 0,
                failed_rounds: 0,
            }),
    {
        if parallelism == 0 {
            return Err(ScheduleError::ZeroParallelism);
        }
        Ok(Scheduler {
            total_rounds,
            parallelism,
            launched: 0,
            active: 0,
            completed_rounds: 0,
            failed_rounds: 0,
        })
    }

    /// What to do next: launch while rounds remain and capacity is free,
    /// else wait while rounds are in flight, else stop. At `Done` every
    /// round has ended, completed or failed.
    pub fn next_action(&self) -> (r: SchedulerAction)
        requires
            self.wf(),
        ensures
            r == self.action_spec(),
            r is Done ==> self.completed_rounds + self.failed_rounds == self.total_rounds
                && self.launched == self.total_rounds && self.active == 0,
    {
        if self.launched < self.total_rounds && self.active < self.parallelism {
            SchedulerAction::Launch { round: self.launched }
        } else if self.active > 0 {
            SchedulerAction::AwaitCompletion
        } else {
            SchedulerAction::Done
        }
    }

    /// Records that the round `next_action` asked for has started.
    pub fn on_launched(&mut self)
        requires
            old(self).wf(),
            old(self).action_spec() is Launch,
        ensures
            final(self).wf(),
            *final(self) == old(self).apply(SchedulerEvent::Launched),
            final(self).active == old(self).active + 1,
            final(self).launched == old(self).launched + 1,
    {
        self.launched = self.launched + 1;
        self.active = self.active + 1;
    }

    /// Records that a round in flight ended with `outcome`, releasing its
    /// unit of capacity.
    pub fn on_round_finished(&mut self, outcome: &RoundOutcome)
        requires
            old(self).wf(),
            old(self).active > 0,
        ensures
            final(self).wf(),
            *final(self) == old(self).apply(
                SchedulerEvent::Finished { completed: *outcome is Completed },
            ),
            final(self).active == old(self).active - 1,
    {
        self.active = self.active - 1;
        if outcome.is_completed() {
            self.completed_rounds = self.completed_rounds + 1;
        } else {
            self.failed_rounds = self.failed_rounds + 1;
        }
    }
}

/// The states passed through while applying `events` from `s`, `s` first.
pub open spec fn trace(s: Scheduler, events: Seq<SchedulerEvent>) -> Seq<Scheduler>
    decreases events.len(),
{
    if events.len() == 0 {
        seq![s]
    } else {
        seq![s] + trace(s.apply(events[0]), events.drop_first())
    }
}

/// Every event keeps the bookkeeping consistent.
pub proof fn lemma_apply_wf(s: Scheduler, e: SchedulerEvent)
    requires
        s.wf(),
    ensures
        s.apply(e).wf(),
        s.apply(e).parallelism == s.parallelism,
        s.apply(e).total_rounds == s.total_rounds,
{
}

/// Whatever the order of launches and completions, no state of a run has
/// more rounds in flight than its capacity.
pub proof fn lemma_capacity_bound(s: Scheduler, events: Seq<SchedulerEvent>)
    requires
        s.wf(),
    ensures
        trace(s, events).len() == events.len() + 1,
        forall|i: int|
            0 <= i < trace(s, events).len() ==> (#[trigger] trace(s, events)[i]).wf()
                && trace(s, events)[i].active <= s.parallelism,
    decreases events.len(),
{
    if events.len() > 0 {
        let s1 = s.apply(events[0]);
        lemma_apply_wf(s, events[0]);
        lemma_capacity_bound(s1, events.drop_first());
        let t = trace(s, events);
        assert forall|i: int| 0 <= i < t.len() implies (#[trigger] t[i]).wf() && t[i].active
            <= s.parallelism by {
            if i > 0 {
                assert(t[i] == trace(s1, events.drop_first())[i - 1]);
            } else {
                assert(t[i] == s);
            }
        }
    } else {
        assert(trace(s, events)[0] == s);
    }
}

} // verus!
