//! The handles of the jobs that are under way or being cancelled.

use crate::client::model::FlowSnake;
use std::collections::HashMap;
use vstd::prelude::*;

verus! {

/// The jobs of a client. `H` is what a running job is awaited and cancelled by,
/// `A` what the cancellation of a job is awaited by.
#[derive(Debug)]
pub struct JobHandles<H, A> {
    running: HashMap<u64, H>,
    cancelling: HashMap<u64, A>,
}

/// A collection of handles with one more, which replaces another of the same job.
pub open spec fn kept<H>(handles: Map<u64, H>, job_id: FlowSnake, handle: H) -> Map<u64, H> {
    handles.insert(job_id.0, handle)
}

/// A collection of handles without that of one job.
pub open spec fn dropped<H>(handles: Map<u64, H>, job_id: FlowSnake) -> Map<u64, H> {
    handles.remove(job_id.0)
}

/// The handle of one job, where there is one.
pub open spec fn found<H>(handles: Map<u64, H>, job_id: FlowSnake) -> Option<H> {
    handles.get(job_id.0)
}

impl<H, A> JobHandles<H, A> {
    /// The handles of running jobs.
    pub closed spec fn running(self) -> Map<u64, H> {
        self.running@
    }

    /// The handles of cancellations.
    pub closed spec fn cancelling(self) -> Map<u64, A> {
        self.cancelling@
    }

    /// No jobs.
    pub fn new() -> (r: Self)
        ensures
            r.running() == Map::<u64, H>::empty(),
            r.cancelling() == Map::<u64, A>::empty(),
    {
        JobHandles { running: HashMap::new(), cancelling: HashMap::new() }
    }

    /// Keeps the handle of a job that has begun. The handle of a job of the same
    /// identifier, where there is one, gives way and is returned.
    pub fn accept_job(&mut self, job_id: FlowSnake, handle: H) -> (r: Option<H>)
        ensures
            final(self).running() == old(self).running().insert(job_id.0, handle),
            final(self).running() == kept(old(self).running(), job_id, handle),
            final(self).cancelling() == old(self).cancelling(),
            r == old(self).running().get(job_id.0),
            r == found(old(self).running(), job_id),
    {
        self.running.insert(job_id.0, handle)
    }

    /// Takes the handle of a job out: to cancel the job by and to await it, or to drop
    /// it once the job has ended. `None` means that no job of this identifier runs.
    pub fn take_job(&mut self, job_id: FlowSnake) -> (r: Option<H>)
        ensures
            final(self).running() == old(self).running().remove(job_id.0),
            final(self).running() == dropped(old(self).running(), job_id),
            final(self).cancelling() == old(self).cancelling(),
            r == old(self).running().get(job_id.0),
            r == found(old(self).running(), job_id),
    {
        self.running.remove(&job_id.0)
    }

    /// Keeps the handle of a cancellation that has begun.
    pub fn note_cancelling(&mut self, job_id: FlowSnake, handle: A) -> (r: Option<A>)
        ensures
            final(self).running() == old(self).running(),
            final(self).cancelling() == old(self).cancelling().insert(job_id.0, handle),
            final(self).cancelling() == kept(old(self).cancelling(), job_id, handle),
            r == old(self).cancelling().get(job_id.0),
            r == found(old(self).cancelling(), job_id),
    {
        self.cancelling.insert(job_id.0, handle)
    }

    /// Drops the handle of a cancellation that has ended.
    pub fn finish_cancelling(&mut self, job_id: FlowSnake) -> (r: Option<A>)
        ensures
            final(self).running() == old(self).running(),
            final(self).cancelling() == old(self).cancelling().remove(job_id.0),
            final(self).cancelling() == dropped(old(self).cancelling(), job_id),
            r == old(self).cancelling().get(job_id.0),
            r == found(old(self).cancelling(), job_id),
    {
        self.cancelling.remove(&job_id.0)
    }
}

/// A job that has been accepted can be cancelled once, by its own handle. Once its
/// cancellation has ended, nothing is left of the job or of the cancellation, and the
/// other jobs are as they were.
pub proof fn law_cancelled_once<H, A>(
    running: Map<u64, H>,
    cancelling: Map<u64, A>,
    job_id: FlowSnake,
    handle: H,
    cancellation: A,
)
    ensures
        ({
            let accepted = running.insert(job_id.0, handle);
            let cancelled = accepted.remove(job_id.0);
            let ended = cancelling.insert(job_id.0, cancellation).remove(job_id.0);
            &&& accepted.get(job_id.0) == Some(handle)
            &&& cancelled.get(job_id.0) is None
            &&& ended.get(job_id.0) is None
            &&& !running.contains_key(job_id.0) ==> cancelled == running
            &&& !cancelling.contains_key(job_id.0) ==> ended == cancelling
            &&& forall|other: u64|
                other != job_id.0 ==> #[trigger] accepted.get(other) == running.get(other)
                    && cancelled.get(other) == running.get(other) && ended.get(other)
                    == cancelling.get(other)
        }),
{
    let cancelled = running.insert(job_id.0, handle).remove(job_id.0);
    let ended = cancelling.insert(job_id.0, cancellation).remove(job_id.0);
    if !running.contains_key(job_id.0) {
        assert(cancelled =~= running);
    }
    if !cancelling.contains_key(job_id.0) {
        assert(ended =~= cancelling);
    }
}

/// What is kept is found until it is dropped or replaced, and what is dropped is not
/// found; neither touches the handle of any other job.
pub proof fn law_kept_until_dropped<H>(
    handles: Map<u64, H>,
    job_id: FlowSnake,
    handle: H,
    other: FlowSnake,
)
    ensures
        found(kept(handles, job_id, handle), job_id) == Some(handle),
        found(dropped(handles, job_id), job_id) is None,
        other != job_id ==> found(kept(handles, job_id, handle), other) == found(handles, other),
        other != job_id ==> found(dropped(handles, job_id), other) == found(handles, other),
        found(handles, job_id) is None ==> dropped(handles, job_id) == handles,
        found(handles, job_id) is Some <==> handles.contains_key(job_id.0),
        found(handles, job_id) matches Some(h) ==> handles[job_id.0] == h,
        found(Map::<u64, H>::empty(), job_id) is None,
{
    if found(handles, job_id) is None {
        assert(dropped(handles, job_id) =~= handles);
    }
}

} // verus!
