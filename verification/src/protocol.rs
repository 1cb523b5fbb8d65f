//! That the two ends of each exchange fit: what one side sends, the other
//! takes, and what was asked for comes back.
use crate::cause::{SchedulerEntryCause, ThreadBlockedCause, ThreadReadyCause};
use crate::crew::Crew;
use crate::event::ThreadEvent;
use crate::job::{BlockingJob, RunInput, RunStep};
use crate::platform::WAIT_IO_COMPLETION;
use crate::scheduler::{
    HookCall, Resumption, SchedulerInput, SchedulerModel, SchedulerStep, SlotWrite,
};
use crate::worker::{ThreadInput, ThreadStep};
use vstd::prelude::*;

verus! {

/// The entry of the scheduler after a thread yielded with this event.
pub open spec fn yielded(ums_thread_context: usize, write: SlotWrite) -> SchedulerInput {
    SchedulerInput::Entered {
        cause: SchedulerEntryCause::ThreadReady {
            ums_thread_context,
            cause: ThreadReadyCause::Yield { param: write.event_slot },
        },
        slot_event: write.event,
    }
}

/// A worker thread yields only with events that the scheduler knows.
pub proof fn law_worker_yields_what_the_scheduler_knows(event: ThreadEvent, input: ThreadInput)
    requires
        crate::worker::thread_accepts(event, input),
        crate::worker::thread_step(event, input).1 is Yield,
    ensures
        crate::worker::thread_step(event, input).0.for_scheduler(),
{
}

/// The scheduler gives an idle thread only events that a worker thread knows.
pub proof fn law_scheduler_resumes_workers_with_what_they_know(s: SchedulerModel)
    ensures
        s.decided(None).1 matches SchedulerStep::Resume(Resumption { write: Some(write), .. })
            ==> crate::worker::thread_accepts(write.event, ThreadInput::Resumed),
{
}

/// A job that the scheduler hands to a thread is run there, and when it
/// returns the thread reports that same job and no other.
pub proof fn law_assigned_job_is_run_and_reported(job: usize, returned: usize)
    ensures
        ({
            let event = ThreadEvent::ThreadAssignedJob(job);
            &&& crate::worker::thread_step(event, ThreadInput::Resumed) == (
                event,
                ThreadStep::RunJob(job),
            )
            &&& crate::worker::thread_accepts(event, ThreadInput::JobReturned(returned)) <==> returned
                == job
            &&& crate::worker::thread_step(event, ThreadInput::JobReturned(job)) == (
                ThreadEvent::ThreadCompleteJob(job),
                ThreadStep::Yield,
            )
        }),
{
}

/// A worker thread ends only when it was told to, with no I/O pending or after
/// a sleep that no I/O ended, and asks for its I/O only when it was just told
/// to end or an I/O ended its sleep.
pub proof fn law_worker_ends_when_told(event: ThreadEvent, input: ThreadInput)
    requires
        crate::worker::thread_accepts(event, input),
    ensures
        ({
            let step = crate::worker::thread_step(event, input).1;
            &&& step is Return ==> event is ThreadShutdown && (input == ThreadInput::IoPending(
                false,
            ) || input == ThreadInput::Slept(0))
            &&& step is QueryIoPending ==> event is ThreadShutdown && (input is Resumed || input
                == ThreadInput::Slept(WAIT_IO_COMPLETION))
        }),
{
}

/// The library's own threads and jobs keep to their part: a thread that
/// starts, a thread whose job returns, a thread that delegates a job which is
/// not outstanding, and what jobs answer, all are permitted, as long as each
/// thread has a slot of its own and each delegation another.
pub proof fn law_workers_and_jobs_keep_to_their_part<F, R>(
    s: SchedulerModel,
    crew: Crew,
    thread: usize,
    slot: usize,
    event: ThreadEvent,
    blocking: BlockingJob<F, R>,
    job: usize,
) where F: FnOnce() -> R
    ensures
        crew.starting.contains(thread) && !crew.slots.contains_value(slot) ==> crew.permits(
            s,
            yielded(
                thread,
                SlotWrite {
                    event_slot: slot,
                    event: crate::worker::thread_step(event, ThreadInput::Started).0,
                },
            ),
            thread,
        ),
        crew.working.contains_pair(thread, job) && crew.slots.contains_pair(thread, slot)
            ==> crew.permits(
            s,
            yielded(
                thread,
                SlotWrite {
                    event_slot: slot,
                    event: crate::worker::thread_step(event, ThreadInput::JobReturned(job)).0,
                },
            ),
            thread,
        ),
        !crew.outstanding(s, job) && !crew.slots.contains_value(blocking.event_slot)
            ==> crew.permits(
            s,
            yielded(blocking.invoker, blocking.request(job)),
            thread,
        ),
        !crew.slots.contains_value(blocking.event_slot) ==> crew.permits(
            s,
            SchedulerInput::HookReturned(Some(blocking.completion())),
            thread,
        ),
        crew.permits(s, SchedulerInput::HookReturned(None), thread),
{
}

/// A thread that delegates a job yields once, with the request for that job in
/// its slot. The job is queued behind all others and told who asked.
pub proof fn law_delegated_job_is_queued<F, R>(
    s: SchedulerModel,
    blocking: BlockingJob<F, R>,
    job: usize,
) where F: FnOnce() -> R
    ensures
        ({
            let (running, step) = blocking.ran(RunInput::Started { job });
            let request = SlotWrite { event_slot: step->event_slot, event: running.event };
            step is Yield && request == blocking.request(job)
        }),
        s.step(yielded(blocking.invoker, blocking.request(job))) == (
            SchedulerModel {
                queued_jobs: s.queued_jobs.push(job),
                total_job_count: s.total_job_count + 1,
                ..s
            },
            SchedulerStep::CallHook(
                HookCall::OnSchedule { job, invoker_ums_thread_context: blocking.invoker },
            ),
        ),
{
}

/// When a thread reports that a delegated job is complete, the job is asked,
/// and what it answers has the thread that delegated it resumed next, with
/// the completion in its slot. The thread that ran the job is idle then.
pub proof fn law_completion_resumes_the_invoker<F, R>(
    s: SchedulerModel,
    blocking: BlockingJob<F, R>,
    job: usize,
    worker: usize,
    worker_slot: usize,
) where F: FnOnce() -> R
    ensures
        ({
            let reported = SlotWrite {
                event_slot: worker_slot,
                event: ThreadEvent::ThreadCompleteJob(job),
            };
            let (t, asked) = s.step(yielded(worker, reported));
            let (u, answered) = t.step(SchedulerInput::HookReturned(Some(blocking.completion())));
            &&& asked == SchedulerStep::CallHook(HookCall::OnComplete { job })
            &&& answered == SchedulerStep::Resume(
                Resumption {
                    write: Some(
                        SlotWrite {
                            event_slot: blocking.event_slot,
                            event: ThreadEvent::CompleteJob,
                        },
                    ),
                    ums_thread_context: blocking.invoker,
                },
            )
            &&& u.idle_threads.last().ums_thread_context == worker
            &&& u.total_job_count == s.total_job_count - 1
        }),
{
}

/// A delegated job after its thread stopped for these causes.
pub open spec fn after_stops<F, R>(
    blocking: BlockingJob<F, R>,
    stops: Seq<ThreadBlockedCause>,
) -> BlockingJob<F, R> where F: FnOnce() -> R
    decreases stops.len(),
{
    if stops.len() == 0 {
        blocking
    } else {
        after_stops(blocking, stops.drop_last()).stopped(stops.last())
    }
}

/// How often the cause is among the stops.
pub open spec fn occurrences(stops: Seq<ThreadBlockedCause>, cause: ThreadBlockedCause) -> nat
    decreases stops.len(),
{
    if stops.len() == 0 {
        0
    } else {
        occurrences(stops.drop_last(), cause) + if stops.last() == cause {
            1nat
        } else {
            0nat
        }
    }
}

/// A delegated job counts the stops of its thread, each by its cause, and
/// they change nothing else.
pub proof fn law_stops_are_counted<F, R>(
    blocking: BlockingJob<F, R>,
    stops: Seq<ThreadBlockedCause>,
) where F: FnOnce() -> R
    requires
        blocking.traps + occurrences(stops, ThreadBlockedCause::Trap) <= usize::MAX,
        blocking.sys_calls + occurrences(stops, ThreadBlockedCause::SysCall) <= usize::MAX,
    ensures
        after_stops(blocking, stops) == (BlockingJob {
            traps: (blocking.traps + occurrences(stops, ThreadBlockedCause::Trap)) as usize,
            sys_calls: (blocking.sys_calls + occurrences(
                stops,
                ThreadBlockedCause::SysCall,
            )) as usize,
            ..blocking
        }),
    decreases stops.len(),
{
    if stops.len() > 0 {
        law_stops_are_counted(blocking, stops.drop_last());
    }
}

proof fn lemma_stops_keep_state<F, R>(
    blocking: BlockingJob<F, R>,
    stops: Seq<ThreadBlockedCause>,
) where F: FnOnce() -> R
    ensures
        after_stops(blocking, stops).state == blocking.state,
    decreases stops.len(),
{
    if stops.len() > 0 {
        lemma_stops_keep_state(blocking, stops.drop_last());
    }
}

/// A delegated job gives back what its function returned: it is made, `main`
/// leaves it as `done`, and `result` is what the thread that delegated it goes
/// on with, however often its thread stops before that and after.
pub proof fn law_blocking_returns_what_the_function_returned<F, R>(
    f: F,
    invoker: usize,
    event_slot: usize,
    before: Seq<ThreadBlockedCause>,
    done: BlockingJob<F, R>,
    after: Seq<ThreadBlockedCause>,
    result: R,
) where F: FnOnce() -> R
    requires
        after_stops(
            BlockingJob::<F, R>::fresh(f, invoker, event_slot),
            before,
        ).state.ran_to(done.state),
        after_stops(done, after).accepts(RunInput::Resumed),
        after_stops(done, after).ran(RunInput::Resumed).1 == RunStep::Return(result),
    ensures
        call_ensures(f, (), result),
{
    lemma_stops_keep_state(BlockingJob::<F, R>::fresh(f, invoker, event_slot), before);
    lemma_stops_keep_state(done, after);
}

/// From its creation to its completion a delegated job belongs to one thread
/// and one slot: after the thread has asked for it, after any stops and
/// whatever its function made of it, its completion resumes the thread for
/// which it was made, with the report in the slot for which it was made.
pub proof fn law_completion_reaches_the_invoker<F, R>(
    f: F,
    invoker: usize,
    event_slot: usize,
    job: usize,
    stops: Seq<ThreadBlockedCause>,
    state: crate::job::JobState<F, R>,
) where F: FnOnce() -> R
    ensures
        ({
            let made = BlockingJob::<F, R>::fresh(f, invoker, event_slot);
            let asked = made.ran(RunInput::Started { job }).0;
            let stopped = after_stops(asked, stops);
            let done = BlockingJob { state, ..stopped };
            let report = crate::scheduler::Execution {
                ums_thread_context: invoker,
                event_slot,
                event: ThreadEvent::CompleteJob,
            };
            &&& made.completion() == report
            &&& asked.completion() == report
            &&& stopped.completion() == report
            &&& done.completion() == report
        }),
{
    let asked = BlockingJob::<F, R>::fresh(f, invoker, event_slot).ran(
        RunInput::Started { job },
    ).0;
    lemma_stops_keep_the_invoker(asked, stops);
}

proof fn lemma_stops_keep_the_invoker<F, R>(
    blocking: BlockingJob<F, R>,
    stops: Seq<ThreadBlockedCause>,
) where F: FnOnce() -> R
    ensures
        after_stops(blocking, stops).invoker == blocking.invoker,
        after_stops(blocking, stops).event_slot == blocking.event_slot,
    decreases stops.len(),
{
    if stops.len() > 0 {
        lemma_stops_keep_the_invoker(blocking, stops.drop_last());
    }
}

} // verus!
