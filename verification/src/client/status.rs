//! Telling the coordinator how busy the client is and how many jobs it asks for.

use crate::client::model::{ClientMsg, ClientStatusMsg};
use crate::text::{law_low_bits, low_i32, low_u32, to_low_i32, to_low_u32};
use vstd::prelude::*;

verus! {

/// The status with which a client that takes on `max_concurrent_tasks` jobs at a
/// time introduces itself: it asks for that many.
pub open spec fn opening_status(max_concurrent_tasks: usize) -> ClientStatusMsg {
    ClientStatusMsg {
        active_task_count: 0,
        request_for_new_task: low_u32(max_concurrent_tasks as int) as u32,
        can_accept_new_task: true,
    }
}

/// The status after a job has begun: it asks for nothing, and can take on more
/// while fewer tests run than may.
pub open spec fn begun_status(
    job_count: usize,
    running_tests: usize,
    max_concurrent_tasks: usize,
) -> ClientStatusMsg {
    ClientStatusMsg {
        active_task_count: low_i32(job_count as int) as i32,
        request_for_new_task: 0,
        can_accept_new_task: running_tests < max_concurrent_tasks,
    }
}

/// The status after a job has ended: it asks for another one in its place, unless
/// the client is about to stop.
pub open spec fn ended_status(job_count: usize, aborting: bool) -> ClientStatusMsg {
    ClientStatusMsg {
        active_task_count: low_i32(job_count as int) as i32,
        request_for_new_task: if aborting {
            0
        } else {
            1
        },
        can_accept_new_task: !aborting,
    }
}

/// What a client says first.
pub fn open_session<T>(max_concurrent_tasks: usize) -> (r: ClientMsg<T>)
    ensures
        r == ClientMsg::<T>::ClientStatus(opening_status(max_concurrent_tasks)),
        r matches ClientMsg::ClientStatus(status) && status.can_accept_new_task
            && status.active_task_count == 0 && (max_concurrent_tasks
            - status.request_for_new_task) % 0x1_0000_0000 == 0,
{
    ClientMsg::ClientStatus(
        ClientStatusMsg {
            active_task_count: 0,
            request_for_new_task: to_low_u32(max_concurrent_tasks),
            can_accept_new_task: true,
        },
    )
}

/// What a client says when a job has begun. `job_count` is the number of jobs as
/// counted with it, `running_tests` the number of tests that run by then.
pub fn flag_new_job<T>(job_count: usize, running_tests: usize, max_concurrent_tasks: usize) -> (r:
    ClientMsg<T>)
    ensures
        r == ClientMsg::<T>::ClientStatus(
            begun_status(job_count, running_tests, max_concurrent_tasks),
        ),
        r matches ClientMsg::ClientStatus(status) && status.can_accept_new_task == (running_tests
            < max_concurrent_tasks) && status.request_for_new_task == 0 && (job_count
            - status.active_task_count) % 0x1_0000_0000 == 0,
{
    ClientMsg::ClientStatus(
        ClientStatusMsg {
            active_task_count: to_low_i32(job_count),
            request_for_new_task: 0,
            can_accept_new_task: running_tests < max_concurrent_tasks,
        },
    )
}

/// What a client says when a job has ended. `job_count` is the number of jobs as
/// counted without it.
pub fn flag_finished_job<T>(job_count: usize, aborting: bool) -> (r: ClientMsg<T>)
    ensures
        r == ClientMsg::<T>::ClientStatus(ended_status(job_count, aborting)),
        r matches ClientMsg::ClientStatus(status) && status.can_accept_new_task == !aborting
            && status.request_for_new_task == (if aborting {
            0u32
        } else {
            1u32
        }) && (job_count - status.active_task_count) % 0x1_0000_0000 == 0,
{
    ClientMsg::ClientStatus(
        ClientStatusMsg {
            active_task_count: to_low_i32(job_count),
            request_for_new_task: if aborting {
                0
            } else {
                1
            },
            can_accept_new_task: !aborting,
        },
    )
}

/// Something that makes a client state its status.
pub enum StatusEvent {
    JobBegun { job_count: usize, running_tests: usize },
    JobEnded { job_count: usize, aborting: bool },
}

/// The status that an event gives rise to.
pub open spec fn status_after(event: StatusEvent, max_concurrent_tasks: usize) -> ClientStatusMsg {
    match event {
        StatusEvent::JobBegun { job_count, running_tests } => begun_status(
            job_count,
            running_tests,
            max_concurrent_tasks,
        ),
        StatusEvent::JobEnded { job_count, aborting } => ended_status(job_count, aborting),
    }
}

/// How many jobs a client has asked for after its opening status and these events.
pub open spec fn asked_for(events: Seq<StatusEvent>, max_concurrent_tasks: usize) -> int
    decreases events.len(),
{
    if events.len() == 0 {
        opening_status(max_concurrent_tasks).request_for_new_task as int
    } else {
        asked_for(events.drop_last(), max_concurrent_tasks) + status_after(
            events.last(),
            max_concurrent_tasks,
        ).request_for_new_task
    }
}

/// How many of these events are the begin of a job.
pub open spec fn jobs_begun(events: Seq<StatusEvent>) -> int
    decreases events.len(),
{
    if events.len() == 0 {
        0
    } else {
        jobs_begun(events.drop_last()) + (if events.last() is JobBegun {
            1int
        } else {
            0
        })
    }
}

/// How many of these events are the end of a job.
pub open spec fn jobs_ended(events: Seq<StatusEvent>) -> int
    decreases events.len(),
{
    if events.len() == 0 {
        0
    } else {
        jobs_ended(events.drop_last()) + (if events.last() is JobEnded {
            1int
        } else {
            0
        })
    }
}

proof fn lemma_asked_for(events: Seq<StatusEvent>, max_concurrent_tasks: usize)
    ensures
        asked_for(events, max_concurrent_tasks) <= max_concurrent_tasks + jobs_ended(events),
        max_concurrent_tasks <= u32::MAX && (forall|i: int|
            0 <= i < events.len() ==> ((#[trigger] events[i]) matches StatusEvent::JobEnded {
                aborting,
                ..
            } ==> !aborting)) ==> asked_for(events, max_concurrent_tasks) == max_concurrent_tasks
            + jobs_ended(events),
    decreases events.len(),
{
    if events.len() > 0 {
        let shorter = events.drop_last();
        lemma_asked_for(shorter, max_concurrent_tasks);
        assert(forall|i: int| 0 <= i < shorter.len() ==> #[trigger] shorter[i] == events[i]);
        assert(events.last() == events[events.len() - 1]);
    }
}

/// A coordinator that hands out no more jobs than it was asked for never has a
/// client carry out more than `max_concurrent_tasks` jobs at a time.
pub proof fn law_never_overloaded(events: Seq<StatusEvent>, max_concurrent_tasks: usize)
    requires
        jobs_begun(events) <= asked_for(events, max_concurrent_tasks),
    ensures
        jobs_begun(events) - jobs_ended(events) <= max_concurrent_tasks,
{
    lemma_asked_for(events, max_concurrent_tasks);
}

/// While it is not about to stop, a client has asked for exactly as many jobs as
/// keep it fully busy: `max_concurrent_tasks`, and one more for each that ended.
/// (The number is sent in 32 bits, and must fit.)
pub proof fn law_kept_busy(events: Seq<StatusEvent>, max_concurrent_tasks: usize)
    requires
        max_concurrent_tasks <= u32::MAX,
        forall|i: int|
            0 <= i < events.len() ==> ((#[trigger] events[i]) matches StatusEvent::JobEnded {
                aborting,
                ..
            } ==> !aborting),
    ensures
        asked_for(events, max_concurrent_tasks) == max_concurrent_tasks + jobs_ended(events),
{
    lemma_asked_for(events, max_concurrent_tasks);
}

/// A client introduces itself as idle and able to take on jobs, and asks for as many as
/// it may carry out at a time, as far as 32 bits hold the number.
pub proof fn law_opening_status(max_concurrent_tasks: usize)
    ensures
        ({
            let status = opening_status(max_concurrent_tasks);
            &&& status.active_task_count == 0
            &&& status.can_accept_new_task
            &&& (max_concurrent_tasks - status.request_for_new_task) % 0x1_0000_0000 == 0
            &&& max_concurrent_tasks <= u32::MAX ==> status.request_for_new_task
                == max_concurrent_tasks
        }),
{
    law_low_bits(max_concurrent_tasks as int);
}

/// When a job has begun, whatever the numbers, the status tells how many there are,
/// asks for none, and says that more can be taken on exactly where fewer tests run than
/// may.
pub proof fn law_begun_status(job_count: usize, running_tests: usize, max_concurrent_tasks: usize)
    ensures
        ({
            let status = begun_status(job_count, running_tests, max_concurrent_tasks);
            &&& (job_count - status.active_task_count) % 0x1_0000_0000 == 0
            &&& job_count <= i32::MAX ==> status.active_task_count == job_count
            &&& status.request_for_new_task == 0
            &&& status.can_accept_new_task <==> running_tests < max_concurrent_tasks
        }),
{
    law_low_bits(job_count as int);
}

/// When a job has ended, whatever the number of jobs left, the status tells that
/// number, says that more can be taken on exactly where the client is not about to
/// stop, and asks for one more exactly there.
pub proof fn law_ended_status(job_count: usize, aborting: bool)
    ensures
        ({
            let status = ended_status(job_count, aborting);
            &&& (job_count - status.active_task_count) % 0x1_0000_0000 == 0
            &&& job_count <= i32::MAX ==> status.active_task_count == job_count
            &&& status.can_accept_new_task <==> !aborting
            &&& status.request_for_new_task == 1 <==> !aborting
            &&& status.request_for_new_task == 0 <==> aborting
        }),
{
    law_low_bits(job_count as int);
}

} // verus!
