//! Cancelling a job.
//!
//! [`Cancellation`] names one action at a time and is told how it went.

use crate::client::model::FlowSnake;
use vstd::prelude::*;

verus! {

/// What to do next.
#[derive(Debug, Clone, Copy, PartialEq, Eq, Structural)]
pub enum CancelAction {
    /// Take the handle of the running job out, where there is one.
    TakeOut(FlowSnake),
    /// Cancel the job by the handle that was taken out.
    Cancel,
    /// Wait for the job by the handle that was taken out; how it ended is only logged.
    Await,
    /// Drop the handle of this cancellation.
    Forget(FlowSnake),
    /// Nothing is left to do.
    Stop,
}

/// How an action went.
#[derive(Debug, Clone, Copy, PartialEq, Eq, Structural)]
pub enum CancelEvent {
    Done,
    /// Whether the job was running, so that there is a handle of it.
    Taken { running: bool },
}

/// Which action was named last.
#[derive(Debug, Clone, Copy, PartialEq, Eq, Structural)]
pub enum CancelStep {
    TakeOut,
    Cancel,
    Await,
    Forget,
    Finished,
}

/// The cancellation of one job.
#[derive(Debug, Clone, Copy, PartialEq, Eq, Structural)]
pub struct Cancellation {
    pub job_id: FlowSnake,
    pub step: CancelStep,
}

impl Cancellation {
    /// Whether `event` can be the answer to the action named last.
    pub open spec fn awaits(self, event: CancelEvent) -> bool {
        match self.step {
            CancelStep::TakeOut => event is Taken,
            CancelStep::Finished => false,
            _ => event is Done,
        }
    }

    /// How many steps are left at most.
    pub open spec fn rank(self) -> nat {
        match self.step {
            CancelStep::TakeOut => 4,
            CancelStep::Cancel => 3,
            CancelStep::Await => 2,
            CancelStep::Forget => 1,
            CancelStep::Finished => 0,
        }
    }

    /// The same cancellation at another step.
    pub open spec fn at(self, step: CancelStep) -> Self {
        Cancellation { step, ..self }
    }

    /// What follows when the action named last went as `event` says.
    pub open spec fn after(self, event: CancelEvent) -> (Self, CancelAction) {
        match self.step {
            CancelStep::TakeOut if event->running => (
                self.at(CancelStep::Cancel),
                CancelAction::Cancel,
            ),
            CancelStep::TakeOut | CancelStep::Await => (
                self.at(CancelStep::Forget),
                CancelAction::Forget(self.job_id),
            ),
            CancelStep::Cancel => (self.at(CancelStep::Await), CancelAction::Await),
            _ => (self.at(CancelStep::Finished), CancelAction::Stop),
        }
    }

    /// Whether `event` can be the answer to the action named last.
    pub fn check_awaits(&self, event: &CancelEvent) -> (r: bool)
        ensures
            r == self.awaits(*event),
    {
        match (self.step, event) {
            (CancelStep::TakeOut, CancelEvent::Taken { .. }) => true,
            (CancelStep::Cancel, CancelEvent::Done) => true,
            (CancelStep::Await, CancelEvent::Done) => true,
            (CancelStep::Forget, CancelEvent::Done) => true,
            _ => false,
        }
    }

    /// Takes in how the action named last went, and names the next one.
    pub fn next(self, event: CancelEvent) -> (r: (Self, CancelAction))
        requires
            self.awaits(event),
        ensures
            r == self.after(event),
            r.0.rank() < self.rank(),
            r.1 is Stop <==> r.0.step is Finished,
    {
        let job_id = self.job_id;
        let (step, action) = match (self.step, event) {
            (CancelStep::TakeOut, CancelEvent::Taken { running: true }) => (
                CancelStep::Cancel,
                CancelAction::Cancel,
            ),
            (CancelStep::TakeOut, _) => (CancelStep::Forget, CancelAction::Forget(job_id)),
            (CancelStep::Cancel, _) => (CancelStep::Await, CancelAction::Await),
            (CancelStep::Await, _) => (CancelStep::Forget, CancelAction::Forget(job_id)),
            _ => (CancelStep::Finished, CancelAction::Stop),
        };
        (Cancellation { job_id, step }, action)
    }
}

/// The cancellation of a job before its first step.
pub open spec fn begun(job_id: FlowSnake) -> Cancellation {
    Cancellation { job_id, step: CancelStep::TakeOut }
}

/// Begins to cancel a job.
pub fn cancel_job(job_id: FlowSnake) -> (r: (Cancellation, CancelAction))
    ensures
        r.0 == (Cancellation { job_id, step: CancelStep::TakeOut }),
        r.0 == begun(job_id),
        r.1 == CancelAction::TakeOut(job_id),
{
    (Cancellation { job_id, step: CancelStep::TakeOut }, CancelAction::TakeOut(job_id))
}

/// The actions that are performed from here on, in order, where `running` says whether
/// the job is running.
pub open spec fn run(cancellation: Cancellation, action: CancelAction, running: bool) -> Seq<
    CancelAction,
>
    decreases cancellation.rank(),
{
    let event = if cancellation.step is TakeOut {
        CancelEvent::Taken { running }
    } else {
        CancelEvent::Done
    };
    if action is Stop || !cancellation.awaits(event) {
        seq![action]
    } else {
        let (rest, then_action) = cancellation.after(event);
        seq![action] + run(rest, then_action, running)
    }
}

/// A job that is running is taken out, cancelled and waited for; one that is not is
/// left alone. In either case the cancellation itself is forgotten last.
pub proof fn law_cancelled_and_forgotten(job_id: FlowSnake, running: bool)
    ensures
        run(
            Cancellation { job_id, step: CancelStep::TakeOut },
            CancelAction::TakeOut(job_id),
            running,
        ) == seq![CancelAction::TakeOut(job_id)] + (if running {
            seq![CancelAction::Cancel, CancelAction::Await]
        } else {
            Seq::empty()
        }) + seq![CancelAction::Forget(job_id), CancelAction::Stop],
{
    reveal_with_fuel(run, 5);
    assert(run(
        Cancellation { job_id, step: CancelStep::TakeOut },
        CancelAction::TakeOut(job_id),
        running,
    ) =~= seq![CancelAction::TakeOut(job_id)] + (if running {
        seq![CancelAction::Cancel, CancelAction::Await]
    } else {
        Seq::empty()
    }) + seq![CancelAction::Forget(job_id), CancelAction::Stop]);
}

/// After the handle has been looked for, it can be told whether there was one; at every
/// other step but the last, that the action is done.
pub proof fn law_answers(cancellation: Cancellation, event: CancelEvent)
    ensures
        cancellation.step is TakeOut ==> (cancellation.awaits(event) <==> event is Taken),
        cancellation.step is Finished ==> !cancellation.awaits(event),
        !(cancellation.step is TakeOut) && !(cancellation.step is Finished) ==> (
        cancellation.awaits(event) <==> event is Done),
{
}

/// A cancellation is begun for the job that it was asked for, and with nothing done.
pub proof fn law_begun(job_id: FlowSnake)
    ensures
        begun(job_id).job_id == job_id,
        begun(job_id).step is TakeOut,
{
}

} // verus!
