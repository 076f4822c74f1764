//! Running something again after it has ended, a fixed number of times with
//! a fixed pause, and then no more.
//!
//! Both the manager and a subscription are run this way: whether an attempt
//! ended well or badly, it is followed by a pause and, while the budget
//! lasts, by another attempt.

use crate::bluetooth::timeout::Failure;
use vstd::prelude::*;

verus! {

/// How many attempts are made before giving up.
pub const RETRY_BUDGET: u8 = 5;

/// Seconds between the end of one attempt and what follows it.
pub const RETRY_PAUSE_SECS: u64 = 5;

/// The text for the status line once the budget is spent.
pub open spec fn unavailable_text() -> Seq<char> {
    "Bluetooth unavailable"@
}

/// What the supervisor is waiting for.
#[derive(Clone, Copy, Debug, PartialEq, Eq, Structural)]
pub enum SupervisorPhase {
    /// An attempt is running.
    Running,
    /// The pause after an attempt is running.
    Pausing,
    /// The budget is spent; nothing runs.
    Spent,
}

/// The supervisor of one thing that is run again and again.
#[derive(Clone, Copy, Debug, PartialEq, Eq, Structural)]
pub struct Supervisor {
    pub phase: SupervisorPhase,
    /// Attempts allowed in all.
    pub budget: u8,
    /// Attempts that have not been started yet.
    pub remaining: u8,
    /// Seconds to pause after each attempt.
    pub pause_secs: u64,
}

/// What the caller is to do next.
#[derive(Clone, Copy, Debug, PartialEq, Eq, Structural)]
pub enum SupervisorRequest {
    /// Run an attempt to its end. `last` says that none will follow it.
    Run { last: bool },
    /// Sleep for `secs` seconds.
    Pause { secs: u64 },
    /// Nothing more: the budget is spent, which the user is to be told.
    GiveUp,
}

/// What the caller has to report.
#[derive(Clone, Copy, Debug, PartialEq, Eq)]
pub enum SupervisorEvent {
    /// The attempt has ended, well or not.
    Returned(Result<(), Failure>),
    /// The pause is over.
    Paused,
}

impl Supervisor {
    /// No more attempts are left than the budget allows.
    pub open spec fn wf(self) -> bool {
        self.remaining <= self.budget
    }

    /// How many attempts have been started.
    pub open spec fn started(self) -> int {
        self.budget - self.remaining
    }

    /// The supervisor as it is once it has been set going: with a budget of
    /// none it has given up, else the first attempt is running.
    pub open spec fn launched(budget: u8, pause_secs: u64) -> Supervisor {
        if budget == 0 {
            Supervisor { phase: SupervisorPhase::Spent, budget, remaining: 0, pause_secs }
        } else {
            Supervisor {
                phase: SupervisorPhase::Running,
                budget,
                remaining: (budget - 1) as u8,
                pause_secs,
            }
        }
    }

    /// The request that the supervisor is waiting on.
    pub open spec fn pending(self) -> SupervisorRequest {
        match self.phase {
            SupervisorPhase::Running => SupervisorRequest::Run { last: self.remaining == 0 },
            SupervisorPhase::Pausing => SupervisorRequest::Pause { secs: self.pause_secs },
            SupervisorPhase::Spent => SupervisorRequest::GiveUp,
        }
    }

    /// The supervisor after `event`.
    ///
    /// The end of an attempt, however it ended, starts the pause. The end
    /// of the pause starts the next attempt while one is left, and else
    /// the supervisor gives up for good. An event that does not answer the
    /// pending request changes nothing.
    pub open spec fn after(self, event: SupervisorEvent) -> Supervisor {
        match (self.phase, event) {
            (SupervisorPhase::Running, SupervisorEvent::Returned(_)) => Supervisor {
                phase: SupervisorPhase::Pausing,
                ..self
            },
            (SupervisorPhase::Pausing, SupervisorEvent::Paused) => if self.remaining > 0 {
                Supervisor {
                    phase: SupervisorPhase::Running,
                    remaining: (self.remaining - 1) as u8,
                    ..self
                }
            } else {
                Supervisor { phase: SupervisorPhase::Spent, ..self }
            },
            _ => self,
        }
    }

    /// The supervisor after all of `events`, in their order.
    pub open spec fn after_all(self, events: Seq<SupervisorEvent>) -> Supervisor
        decreases events.len(),
    {
        if events.len() == 0 {
            self
        } else {
            self.after_all(events.drop_last()).after(events.last())
        }
    }

    /// Sets a supervisor going with the usual budget and pause.
    pub fn launch() -> (started: (Supervisor, SupervisorRequest))
        ensures
            started.0 == Supervisor::launched(RETRY_BUDGET, RETRY_PAUSE_SECS),
            started.1 == (SupervisorRequest::Run { last: false }),
    {
        Supervisor::launch_with(RETRY_BUDGET, RETRY_PAUSE_SECS)
    }

    /// Sets a supervisor going with a budget and a pause of the caller's
    /// choice.
    pub fn launch_with(budget: u8, pause_secs: u64) -> (started: (Supervisor, SupervisorRequest))
        ensures
            started.0 == Supervisor::launched(budget, pause_secs),
            started.1 == started.0.pending(),
            started.0.wf(),
    {
        let supervisor: Supervisor = if budget == 0 {
            Supervisor { phase: SupervisorPhase::Spent, budget, remaining: 0, pause_secs }
        } else {
            Supervisor { phase: SupervisorPhase::Running, budget, remaining: budget - 1, pause_secs }
        };
        (supervisor, supervisor.request())
    }

    /// The request that the supervisor is waiting on.
    pub fn request(&self) -> (request: SupervisorRequest)
        ensures
            request == self.pending(),
    {
        match self.phase {
            SupervisorPhase::Running => SupervisorRequest::Run { last: self.remaining == 0 },
            SupervisorPhase::Pausing => SupervisorRequest::Pause { secs: self.pause_secs },
            SupervisorPhase::Spent => SupervisorRequest::GiveUp,
        }
    }

    /// Takes in `event` and says what to do next.
    pub fn advance(&mut self, event: SupervisorEvent) -> (next: SupervisorRequest)
        ensures
            *final(self) == old(self).after(event),
            next == final(self).pending(),
    {
        match (self.phase, event) {
            (SupervisorPhase::Running, SupervisorEvent::Returned(_)) => {
                self.phase = SupervisorPhase::Pausing;
            },
            (SupervisorPhase::Pausing, SupervisorEvent::Paused) => {
                if self.remaining > 0 {
                    self.remaining = self.remaining - 1;
                    self.phase = SupervisorPhase::Running;
                } else {
                    self.phase = SupervisorPhase::Spent;
                }
            },
            _ => {},
        }
        self.request()
    }

    /// Whether attempts are over for good.
    pub fn has_given_up(&self) -> (spent: bool)
        ensures
            spent == (self.phase == SupervisorPhase::Spent),
    {
        match self.phase {
            SupervisorPhase::Spent => true,
            _ => false,
        }
    }
}

/// The status line for a spent budget.
pub fn unavailable_message() -> (text: String)
    ensures
        text@ == unavailable_text(),
{
    "Bluetooth unavailable".to_owned()
}

/// The events of `rounds.len()` attempts that are run as asked: each ends
/// as `rounds` says and is followed by its pause.
pub open spec fn rounds_as_asked(rounds: Seq<Result<(), Failure>>) -> Seq<SupervisorEvent>
    decreases rounds.len(),
{
    if rounds.len() == 0 {
        Seq::empty()
    } else {
        rounds_as_asked(rounds.drop_last()).push(SupervisorEvent::Returned(rounds.last())).push(
            SupervisorEvent::Paused,
        )
    }
}

/// One event starts at most one attempt, never gives back an attempt, and
/// leaves budget and pause alone.
pub proof fn lemma_retry_step(supervisor: Supervisor, event: SupervisorEvent)
    requires
        supervisor.wf(),
    ensures
        supervisor.after(event).wf(),
        supervisor.after(event).budget == supervisor.budget,
        supervisor.after(event).pause_secs == supervisor.pause_secs,
        supervisor.started() <= supervisor.after(event).started() <= supervisor.started() + 1,
        supervisor.after(event).started() == supervisor.started() + 1 <==> (supervisor.phase
            == SupervisorPhase::Pausing && event == SupervisorEvent::Paused
            && supervisor.remaining > 0),
{
}

/// Whatever is reported, in whatever order, no more attempts are started
/// than the budget allows: with the usual budget, never a sixth.
pub proof fn lemma_retry_budget_holds(budget: u8, pause_secs: u64, events: Seq<SupervisorEvent>)
    ensures
        Supervisor::launched(budget, pause_secs).after_all(events).wf(),
        Supervisor::launched(budget, pause_secs).after_all(events).started() <= budget,
        Supervisor::launched(budget, pause_secs).after_all(events).budget == budget,
        Supervisor::launched(budget, pause_secs).after_all(events).pause_secs == pause_secs,
    decreases events.len(),
{
    if events.len() > 0 {
        lemma_retry_budget_holds(budget, pause_secs, events.drop_last());
        lemma_retry_step(
            Supervisor::launched(budget, pause_secs).after_all(events.drop_last()),
            events.last(),
        );
    }
}

/// Attempts that are run as asked use the budget up one by one: after
/// fewer rounds than the budget the next attempt is running, and after as
/// many rounds as the budget, however each ended, the supervisor has given
/// up. Every pause on the way is the one that was set.
pub proof fn lemma_retry_gives_up_after_budget(
    budget: u8,
    pause_secs: u64,
    rounds: Seq<Result<(), Failure>>,
)
    requires
        rounds.len() <= budget,
    ensures
        rounds.len() < budget ==> Supervisor::launched(budget, pause_secs).after_all(
            rounds_as_asked(rounds),
        ) == (Supervisor {
            phase: SupervisorPhase::Running,
            budget,
            remaining: (budget - rounds.len() - 1) as u8,
            pause_secs,
        }),
        rounds.len() == budget ==> Supervisor::launched(budget, pause_secs).after_all(
            rounds_as_asked(rounds),
        ) == (Supervisor { phase: SupervisorPhase::Spent, budget, remaining: 0, pause_secs }),
    decreases rounds.len(),
{
    let start = Supervisor::launched(budget, pause_secs);
    if rounds.len() > 0 {
        let earlier = rounds.drop_last();
        lemma_retry_gives_up_after_budget(budget, pause_secs, earlier);
        let returned = rounds_as_asked(earlier).push(SupervisorEvent::Returned(rounds.last()));
        let paused = returned.push(SupervisorEvent::Paused);
        assert(rounds_as_asked(rounds) == paused);
        assert(paused.drop_last() == returned);
        assert(returned.drop_last() == rounds_as_asked(earlier));
        assert(start.after_all(returned) == start.after_all(rounds_as_asked(earlier)).after(
            returned.last(),
        ));
        assert(start.after_all(paused) == start.after_all(returned).after(paused.last()));
    } else {
        assert(rounds_as_asked(rounds).len() == 0);
    }
}

/// Once the supervisor has given up, nothing starts another attempt.
pub proof fn lemma_retry_spent_is_final(supervisor: Supervisor, event: SupervisorEvent)
    requires
        supervisor.phase == SupervisorPhase::Spent,
    ensures
        supervisor.after(event) == supervisor,
        supervisor.after(event).pending() == SupervisorRequest::GiveUp,
{
}

/// An attempt that ended badly, for whichever reason, is followed by
/// exactly what follows one that ended well: the pause.
pub proof fn lemma_retry_ignores_outcome(
    supervisor: Supervisor,
    a: Result<(), Failure>,
    b: Result<(), Failure>,
)
    ensures
        supervisor.after(SupervisorEvent::Returned(a)) == supervisor.after(
            SupervisorEvent::Returned(b),
        ),
{
}

} // verus!
