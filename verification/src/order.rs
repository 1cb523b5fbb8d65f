//! In which order the scheduler serves jobs and threads, and how many threads
//! it keeps.
use crate::cause::{SchedulerEntryCause, ThreadBlockedCause, ThreadReadyCause};
use crate::event::ThreadEvent;
use crate::scheduler::{
    Execution, HookCall, Resumption, SchedulerInput, SchedulerModel, SchedulerStep, THREADS_SPARE,
};
use vstd::prelude::*;

verus! {

/// The jobs that the input brings.
pub open spec fn arrived_jobs(input: SchedulerInput) -> Seq<usize> {
    match input {
        SchedulerInput::Entered {
            cause: SchedulerEntryCause::ThreadReady { cause: ThreadReadyCause::Yield { .. }, .. },
            slot_event: ThreadEvent::ScheduleJob(job),
        } => seq![job],
        _ => seq![],
    }
}

/// The jobs that the step hands out.
pub open spec fn assigned_jobs(step: SchedulerStep) -> Seq<usize> {
    match step {
        SchedulerStep::Resume(Resumption { write: Some(write), .. }) => match write.event {
            ThreadEvent::ThreadAssignedJob(job) => seq![job],
            _ => seq![],
        },
        _ => seq![],
    }
}

/// The threads that the input makes runnable.
pub open spec fn arrived_threads(input: SchedulerInput) -> Seq<usize> {
    match input {
        SchedulerInput::Entered {
            cause: SchedulerEntryCause::ThreadReady { ums_thread_context, cause },
            ..
        } => if cause is Busy || cause is Suspended {
            seq![ums_thread_context]
        } else {
            seq![]
        },
        SchedulerInput::ThreadsReady(threads) => threads@,
        _ => seq![],
    }
}

/// The threads that the step lets go on with what they were doing.
pub open spec fn continued_threads(step: SchedulerStep) -> Seq<usize> {
    match step {
        SchedulerStep::Resume(Resumption { write: None, ums_thread_context }) => {
            seq![ums_thread_context]
        },
        _ => seq![],
    }
}

/// Whether the input leaves the assignment of jobs to the scheduler: no job's
/// method asks for one.
pub open spec fn leaves_assignment(input: SchedulerInput) -> bool {
    input matches SchedulerInput::HookReturned(Some(e)) ==> !(e.event is ThreadAssignedJob)
}

/// The scheduler after these inputs, one after the other.
pub open spec fn after_inputs(s: SchedulerModel, inputs: Seq<SchedulerInput>) -> SchedulerModel
    decreases inputs.len(),
{
    if inputs.len() == 0 {
        s
    } else {
        after_inputs(s, inputs.drop_last()).step(inputs.last()).0
    }
}

/// The jobs that these inputs bring, in their order.
pub open spec fn all_arrived_jobs(inputs: Seq<SchedulerInput>) -> Seq<usize>
    decreases inputs.len(),
{
    if inputs.len() == 0 {
        seq![]
    } else {
        all_arrived_jobs(inputs.drop_last()) + arrived_jobs(inputs.last())
    }
}

/// The jobs that the scheduler hands out on these inputs, in their order.
pub open spec fn all_assigned_jobs(s: SchedulerModel, inputs: Seq<SchedulerInput>) -> Seq<usize>
    decreases inputs.len(),
{
    if inputs.len() == 0 {
        seq![]
    } else {
        all_assigned_jobs(s, inputs.drop_last()) + assigned_jobs(
            after_inputs(s, inputs.drop_last()).step(inputs.last()).1,
        )
    }
}

/// The threads that these inputs make runnable, in their order.
pub open spec fn all_arrived_threads(inputs: Seq<SchedulerInput>) -> Seq<usize>
    decreases inputs.len(),
{
    if inputs.len() == 0 {
        seq![]
    } else {
        all_arrived_threads(inputs.drop_last()) + arrived_threads(inputs.last())
    }
}

/// The threads that the scheduler lets go on on these inputs, in their order.
pub open spec fn all_continued_threads(s: SchedulerModel, inputs: Seq<SchedulerInput>) -> Seq<usize>
    decreases inputs.len(),
{
    if inputs.len() == 0 {
        seq![]
    } else {
        all_continued_threads(s, inputs.drop_last()) + continued_threads(
            after_inputs(s, inputs.drop_last()).step(inputs.last()).1,
        )
    }
}

proof fn lemma_step_keeps_job_order(s: SchedulerModel, input: SchedulerInput)
    requires
        leaves_assignment(input),
    ensures
        s.queued_jobs + arrived_jobs(input) == assigned_jobs(s.step(input).1)
            + s.step(input).0.queued_jobs,
{
}

proof fn lemma_step_keeps_thread_order(s: SchedulerModel, input: SchedulerInput)
    ensures
        s.runnable_threads + arrived_threads(input) == continued_threads(s.step(input).1)
            + s.step(input).0.runnable_threads,
{
}

/// Jobs are handed out in the order in which they came, each once and none
/// left out: what was queued and what came since is what was handed out and
/// what is queued still.
pub proof fn law_jobs_first_come_first_served(s: SchedulerModel, inputs: Seq<SchedulerInput>)
    requires
        forall|i: int| 0 <= i < inputs.len() ==> leaves_assignment(#[trigger] inputs[i]),
    ensures
        s.queued_jobs + all_arrived_jobs(inputs) == all_assigned_jobs(s, inputs) + after_inputs(
            s,
            inputs,
        ).queued_jobs,
    decreases inputs.len(),
{
    if inputs.len() == 0 {
        assert(s.queued_jobs + all_arrived_jobs(inputs) =~= s.queued_jobs);
    } else {
        let before = inputs.drop_last();
        law_jobs_first_come_first_served(s, before);
        let t = after_inputs(s, before);
        lemma_step_keeps_job_order(t, inputs.last());
        let came = arrived_jobs(inputs.last());
        let gone = assigned_jobs(t.step(inputs.last()).1);
        assert(s.queued_jobs + all_arrived_jobs(inputs) =~= s.queued_jobs + all_arrived_jobs(before)
            + came);
        assert(all_assigned_jobs(s, before) + t.queued_jobs + came =~= all_assigned_jobs(s, before)
            + (t.queued_jobs + came));
        assert(all_assigned_jobs(s, before) + (gone + after_inputs(s, inputs).queued_jobs)
            =~= all_assigned_jobs(s, inputs) + after_inputs(s, inputs).queued_jobs);
    }
}

/// Threads go on in the order in which they became runnable, each once and
/// none left out.
pub proof fn law_threads_first_come_first_served(s: SchedulerModel, inputs: Seq<SchedulerInput>)
    ensures
        s.runnable_threads + all_arrived_threads(inputs) == all_continued_threads(s, inputs)
            + after_inputs(s, inputs).runnable_threads,
    decreases inputs.len(),
{
    if inputs.len() == 0 {
        assert(s.runnable_threads + all_arrived_threads(inputs) =~= s.runnable_threads);
    } else {
        let before = inputs.drop_last();
        law_threads_first_come_first_served(s, before);
        let t = after_inputs(s, before);
        lemma_step_keeps_thread_order(t, inputs.last());
        let came = arrived_threads(inputs.last());
        let gone = continued_threads(t.step(inputs.last()).1);
        assert(s.runnable_threads + all_arrived_threads(inputs) =~= s.runnable_threads
            + all_arrived_threads(before) + came);
        assert(all_continued_threads(s, before) + t.runnable_threads + came
            =~= all_continued_threads(s, before) + (t.runnable_threads + came));
        assert(all_continued_threads(s, before) + (gone + after_inputs(s, inputs).runnable_threads)
            =~= all_continued_threads(s, inputs) + after_inputs(s, inputs).runnable_threads);
    }
}

/// The scheduler after this many threads were created.
pub open spec fn after_creations(s: SchedulerModel, created: nat) -> SchedulerModel {
    SchedulerModel {
        thread_count_starting: s.thread_count_starting + created,
        thread_count_total: s.thread_count_total + created,
        ..s
    }
}

/// Once a decision has `missing` threads created, it goes on to ask for them
/// one by one, and then lets a thread go on; at that point there is a thread
/// for each queued job and a spare one, none more than that.
pub proof fn law_missing_threads_are_created(s: SchedulerModel, created: nat)
    requires
        s.valid(),
        s.decidable(None),
        s.decided(None).1 matches SchedulerStep::CreateThread { missing, .. } && created < missing,
    ensures
        ({
            let (t, step) = s.decided(None);
            let missing = step->missing;
            let (u, next) = after_creations(t, created).step(
                SchedulerInput::ThreadCreated { missing: (missing - created) as usize },
            );
            if created + 1 < missing {
                &&& u == after_creations(t, created + 1)
                &&& next == SchedulerStep::CreateThread {
                    missing: (missing - created - 1) as usize,
                    ums_completion_list: s.ums_completion_list,
                }
            } else {
                let full = after_creations(t, missing as nat);
                &&& (u, next) == full.selected()
                &&& full.idle_threads.len() + full.thread_count_starting == full.queued_jobs.len()
                    + THREADS_SPARE
            }
        }),
{
    let (t, step) = s.decided(None);
    let missing = step->missing;
    assert(missing == t.threads_short());
    assert(((missing - created) as usize) == missing - created);
    assert(after_creations(t, created).with_starting() == after_creations(t, created + 1));
}

/// While there are jobs, the scheduler does not turn to a runnable thread or
/// wait before it has a thread for each queued job and a spare one.
pub proof fn law_one_spare_thread(s: SchedulerModel)
    requires
        s.decidable(None),
        s.total_job_count > 0,
        ({
            let step = s.decided(None).1;
            ||| step is WaitForThreads
            ||| step matches SchedulerStep::Resume(r) && r.write is None
        }),
    ensures
        ({
            let t = s.decided(None).0;
            t.idle_threads.len() + t.thread_count_starting >= t.queued_jobs.len() + THREADS_SPARE
        }),
{
}

/// Without jobs no thread is created.
pub proof fn law_no_threads_without_jobs(s: SchedulerModel, next_execution: Option<Execution>)
    requires
        s.total_job_count == 0,
    ensures
        !(s.decided(next_execution).1 is CreateThread),
{
}

/// When the scheduler decides to leave: when no job's method wants a thread
/// resumed, every job is complete and every thread is gone.
pub proof fn law_exit(s: SchedulerModel, next_execution: Option<Execution>)
    requires
        s.valid(),
    ensures
        s.decided(next_execution).1 is Exit <==> {
            &&& next_execution is None
            &&& s.total_job_count == 0
            &&& s.idle_threads.len() == 0
            &&& s.thread_count_total == 0
        },
{
}

/// What a job's method asks for comes first.
pub proof fn law_hook_comes_first(s: SchedulerModel, execution: Execution)
    ensures
        s.step(SchedulerInput::HookReturned(Some(execution))).1 == SchedulerStep::Resume(
            execution.resumption(),
        ),
{
}

/// After a decision the scheduler remembers an execution if and only if that
/// is what it had carried out.
pub proof fn law_last_execution(s: SchedulerModel, next_execution: Option<Execution>)
    ensures
        ({
            let (t, step) = s.decided(next_execution);
            match t.last_execution {
                Some(execution) => step == SchedulerStep::Resume(execution.resumption()),
                None => step matches SchedulerStep::Resume(r) ==> r.write is None,
            }
        }),
{
}

/// A job that was just handed to a thread, and no other, is told when that
/// thread stops.
pub proof fn law_stop_is_told_to_the_running_job(
    s: SchedulerModel,
    job: usize,
    cause: ThreadBlockedCause,
    slot_event: ThreadEvent,
)
    requires
        assigned_jobs(s.decided(None).1) == seq![job],
    ensures
        s.decided(None).0.step(
            SchedulerInput::Entered {
                cause: SchedulerEntryCause::ThreadBlocked { cause },
                slot_event,
            },
        ) == (
            s.decided(None).0,
            SchedulerStep::CallHook(HookCall::OnBlocking { job, cause }),
        ),
{
    let (t, step) = s.decided(None);
    assert(assigned_jobs(step).len() == 1 && assigned_jobs(step)[0] == job);
    assert(t.last_job() == Some(job));
}

/// The completion list never changes, and it is the one on which threads are
/// created and awaited.
pub proof fn law_completion_list_is_kept(s: SchedulerModel, input: SchedulerInput)
    ensures
        s.step(input).0.ums_completion_list == s.ums_completion_list,
        s.step(input).1 matches SchedulerStep::CreateThread { ums_completion_list, .. }
            ==> ums_completion_list == s.ums_completion_list,
        s.step(input).1 matches SchedulerStep::WaitForThreads { ums_completion_list }
            ==> ums_completion_list == s.ums_completion_list,
{
}

/// Jobs do not wait while a thread is idle. When no job's method asks for an
/// execution, the scheduler hands a job out if and only if a job is queued and
/// a thread is idle; so it waits, lets a thread go on, creates, shuts down or
/// leaves only when the queue is empty or no thread is idle. The job is the
/// one that has been queued for longest, the thread the one that became idle
/// last, and the thread finds the job in its own slot. Both are then neither
/// queued nor idle, and nothing else changes but what is remembered.
pub proof fn law_queued_job_meets_idle_thread(s: SchedulerModel)
    ensures
        ({
            let (t, step) = s.step(SchedulerInput::HookReturned(None));
            &&& s.queued_jobs.len() > 0 && s.idle_threads.len() > 0 <==> (
            step matches SchedulerStep::Resume(Resumption { write: Some(write), .. })
                && write.event is ThreadAssignedJob)
            &&& step is WaitForThreads || step is CreateThread || step is Exit || (
            step matches SchedulerStep::Resume(r) && r.write is None) ==> s.queued_jobs.len() == 0
                || s.idle_threads.len() == 0
            &&& s.queued_jobs.len() > 0 && s.idle_threads.len() > 0 ==> {
                let thread = s.idle_threads[s.idle_threads.len() - 1];
                let event = ThreadEvent::ThreadAssignedJob(s.queued_jobs[0]);
                &&& step matches SchedulerStep::Resume(Resumption {
                    write: Some(write),
                    ums_thread_context,
                })
                &&& ums_thread_context == thread.ums_thread_context
                &&& write.event_slot == thread.event_slot
                &&& write.event == event
                &&& seq![s.queued_jobs[0]] + t.queued_jobs == s.queued_jobs
                &&& t.idle_threads.push(thread) == s.idle_threads
                &&& t.last_execution == Some(
                    Execution {
                        ums_thread_context: thread.ums_thread_context,
                        event_slot: thread.event_slot,
                        event,
                    },
                )
                &&& t.total_job_count == s.total_job_count
                &&& t.runnable_threads == s.runnable_threads
                &&& t.thread_count_starting == s.thread_count_starting
                &&& t.thread_count_total == s.thread_count_total
                &&& t.ums_completion_list == s.ums_completion_list
            }
        }),
{
    if s.queued_jobs.len() > 0 {
        assert(seq![s.queued_jobs[0]] + s.queued_jobs.drop_first() =~= s.queued_jobs);
    }
    if s.idle_threads.len() > 0 {
        assert(s.idle_threads.drop_last().push(s.idle_threads.last()) =~= s.idle_threads);
    }
}

/// Threads are created if and only if there is a job, no job can be handed
/// out, and there are fewer idle and starting threads than queued jobs and one
/// more; and then just as many as are missing, on the scheduler's list.
pub proof fn law_threads_are_created_when_short(s: SchedulerModel)
    requires
        s.queued_jobs.len() < usize::MAX,
        s.thread_count_starting >= 0,
    ensures
        ({
            let (t, step) = s.step(SchedulerInput::HookReturned(None));
            let there = s.idle_threads.len() + s.thread_count_starting;
            &&& step is CreateThread <==> {
                &&& s.total_job_count > 0
                &&& s.queued_jobs.len() == 0 || s.idle_threads.len() == 0
                &&& there < s.queued_jobs.len() + 1
            }
            &&& step matches SchedulerStep::CreateThread { missing, ums_completion_list } ==> {
                &&& there + missing == s.queued_jobs.len() + 1
                &&& ums_completion_list == s.ums_completion_list
                &&& t == SchedulerModel { last_execution: None, ..s }
            }
        }),
{
}

/// Without jobs the threads that are idle are told to end, the one that became
/// idle last first, each through its own slot; and only then.
pub proof fn law_idle_threads_are_shut_down(s: SchedulerModel)
    ensures
        ({
            let (t, step) = s.step(SchedulerInput::HookReturned(None));
            &&& (step matches SchedulerStep::Resume(Resumption { write: Some(write), .. })
                && write.event is ThreadShutdown) <==> {
                &&& !(s.total_job_count > 0)
                &&& s.queued_jobs.len() == 0
                &&& s.idle_threads.len() > 0
            }
            &&& step matches SchedulerStep::Resume(Resumption {
                write: Some(write),
                ums_thread_context,
            }) ==> write.event is ThreadShutdown ==> {
                let thread = s.idle_threads[s.idle_threads.len() - 1];
                &&& ums_thread_context == thread.ums_thread_context
                &&& write.event_slot == thread.event_slot
                &&& t.idle_threads.push(thread) == s.idle_threads
                &&& t == SchedulerModel {
                    idle_threads: t.idle_threads,
                    last_execution: Some(
                        Execution {
                            ums_thread_context,
                            event_slot: write.event_slot,
                            event: write.event,
                        },
                    ),
                    ..s
                }
            }
        }),
{
    if s.idle_threads.len() > 0 {
        assert(s.idle_threads.drop_last().push(s.idle_threads.last()) =~= s.idle_threads);
    }
}

/// The scheduler leaves if and only if no job is left, no thread is idle and
/// no thread is there; nothing changes then.
pub proof fn law_leaves_when_nothing_is_left(s: SchedulerModel)
    ensures
        ({
            let (t, step) = s.step(SchedulerInput::HookReturned(None));
            &&& step is Exit <==> {
                &&& !(s.total_job_count > 0)
                &&& s.idle_threads.len() == 0
                &&& s.thread_count_total == 0
            }
            &&& step is Exit ==> t == SchedulerModel { last_execution: None, ..s }
        }),
{
}

/// When there is nothing to hand out, to create, to shut down or to leave for,
/// the thread that has been runnable for longest goes on, with its slot left
/// alone. Where there is none, the scheduler waits at its list, and only where
/// there is none. Nothing else changes.
pub proof fn law_otherwise_a_thread_goes_on(s: SchedulerModel)
    requires
        s.queued_jobs.len() < usize::MAX,
        s.thread_count_starting >= 0,
    ensures
        ({
            let (t, step) = s.step(SchedulerInput::HookReturned(None));
            let goes_on = {
                &&& s.queued_jobs.len() == 0 || s.idle_threads.len() == 0
                &&& if s.total_job_count > 0 {
                    s.idle_threads.len() + s.thread_count_starting >= s.queued_jobs.len() + 1
                } else {
                    s.idle_threads.len() == 0 && s.thread_count_total != 0
                }
            };
            &&& step is WaitForThreads <==> goes_on && s.runnable_threads.len() == 0
            &&& (step matches SchedulerStep::Resume(r) && r.write is None) <==> goes_on
                && s.runnable_threads.len() > 0
            &&& step matches SchedulerStep::WaitForThreads { ums_completion_list } ==> {
                &&& ums_completion_list == s.ums_completion_list
                &&& t == SchedulerModel { last_execution: None, ..s }
            }
            &&& step matches SchedulerStep::Resume(Resumption {
                write: None,
                ums_thread_context,
            }) ==> {
                &&& seq![ums_thread_context] + t.runnable_threads == s.runnable_threads
                &&& t == SchedulerModel {
                    runnable_threads: t.runnable_threads,
                    last_execution: None,
                    ..s
                }
            }
        }),
{
    if s.runnable_threads.len() > 0 {
        assert(seq![s.runnable_threads[0]] + s.runnable_threads.drop_first()
            =~= s.runnable_threads);
    }
}

/// What a job's method asks for is carried out as it is: that thread is
/// resumed, with that event in that slot. It is remembered, and nothing else
/// changes.
pub proof fn law_request_is_carried_out(s: SchedulerModel, execution: Execution)
    ensures
        ({
            let (t, step) = s.step(SchedulerInput::HookReturned(Some(execution)));
            &&& step matches SchedulerStep::Resume(Resumption {
                write: Some(write),
                ums_thread_context,
            })
            &&& ums_thread_context == execution.ums_thread_context
            &&& write.event_slot == execution.event_slot
            &&& write.event == execution.event
            &&& t == SchedulerModel { last_execution: Some(execution), ..s }
        }),
{
}

/// A stop is told to the job that the last execution assigned to a thread, if
/// it assigned one, with the cause of the stop; the scheduler does not change.
/// If it assigned none, no job is told, and the stop is answered as if a job's
/// method had asked for nothing.
pub proof fn law_stop_is_told_to_the_assigned_job_alone(
    s: SchedulerModel,
    stop: ThreadBlockedCause,
    slot_event: ThreadEvent,
    job: usize,
)
    ensures
        ({
            let blocked = SchedulerEntryCause::ThreadBlocked { cause: stop };
            let (t, step) = s.step(SchedulerInput::Entered { cause: blocked, slot_event });
            &&& (s.last_execution matches Some(e) && e.event == ThreadEvent::ThreadAssignedJob(job))
                <==> step == SchedulerStep::CallHook(HookCall::OnBlocking { job, cause: stop })
            &&& step is CallHook ==> t == s
            &&& step is CallHook ==> (s.last_execution matches Some(e)
                && e.event is ThreadAssignedJob)
            &&& !(s.last_execution matches Some(e) && e.event is ThreadAssignedJob) ==> (t, step)
                == s.step(SchedulerInput::HookReturned(None))
        }),
{
}

/// The first entry is answered as if a job's method had asked for nothing.
pub proof fn law_startup_changes_nothing(
    s: SchedulerModel,
    param: usize,
    slot_event: ThreadEvent,
)
    ensures
        s.step(
            SchedulerInput::Entered {
                cause: SchedulerEntryCause::Startup { param },
                slot_event,
            },
        ) == s.step(SchedulerInput::HookReturned(None)),
{
}

/// A thread that could not be resumed yet, or is suspended, is put behind all
/// that can go on, and then the scheduler decides; what the slot holds is of
/// no account.
pub proof fn law_thread_that_cannot_run_goes_to_the_back(
    s: SchedulerModel,
    thread: usize,
    cause: ThreadReadyCause,
    slot_event: ThreadEvent,
)
    requires
        cause is Busy || cause is Suspended,
    ensures
        s.step(
            SchedulerInput::Entered {
                cause: SchedulerEntryCause::ThreadReady { ums_thread_context: thread, cause },
                slot_event,
            },
        ) == (SchedulerModel {
            runnable_threads: s.runnable_threads.push(thread),
            ..s
        }).step(SchedulerInput::HookReturned(None)),
{
}

/// A thread that has started is one less that is starting and is idle, with
/// the slot that it yielded with, and then the scheduler decides.
pub proof fn law_started_thread_becomes_idle(s: SchedulerModel, thread: usize, slot: usize)
    ensures
        s.step(
            SchedulerInput::Entered {
                cause: SchedulerEntryCause::ThreadReady {
                    ums_thread_context: thread,
                    cause: ThreadReadyCause::Yield { param: slot },
                },
                slot_event: ThreadEvent::ThreadStartup,
            },
        ) == (SchedulerModel {
            idle_threads: s.idle_threads.push(
                crate::scheduler::Executor { ums_thread_context: thread, event_slot: slot },
            ),
            thread_count_starting: s.thread_count_starting - 1,
            ..s
        }).step(SchedulerInput::HookReturned(None)),
{
}

/// A job that a thread delegates is queued behind all others and counted, and
/// the job is told which thread asked.
pub proof fn law_delegated_job_is_queued_and_told(
    s: SchedulerModel,
    thread: usize,
    slot: usize,
    job: usize,
)
    ensures
        ({
            let (t, step) = s.step(
                SchedulerInput::Entered {
                    cause: SchedulerEntryCause::ThreadReady {
                        ums_thread_context: thread,
                        cause: ThreadReadyCause::Yield { param: slot },
                    },
                    slot_event: ThreadEvent::ScheduleJob(job),
                },
            );
            &&& step == SchedulerStep::CallHook(
                HookCall::OnSchedule { job, invoker_ums_thread_context: thread },
            )
            &&& t == SchedulerModel {
                queued_jobs: s.queued_jobs.push(job),
                total_job_count: s.total_job_count + 1,
                ..s
            }
        }),
{
}

/// A job that a thread reports complete is one less, and is told so; the
/// thread is idle, with the slot that it yielded with.
pub proof fn law_completed_job_is_told(
    s: SchedulerModel,
    thread: usize,
    slot: usize,
    job: usize,
)
    ensures
        ({
            let (t, step) = s.step(
                SchedulerInput::Entered {
                    cause: SchedulerEntryCause::ThreadReady {
                        ums_thread_context: thread,
                        cause: ThreadReadyCause::Yield { param: slot },
                    },
                    slot_event: ThreadEvent::ThreadCompleteJob(job),
                },
            );
            &&& step == SchedulerStep::CallHook(HookCall::OnComplete { job })
            &&& t == SchedulerModel {
                idle_threads: s.idle_threads.push(
                    crate::scheduler::Executor { ums_thread_context: thread, event_slot: slot },
                ),
                total_job_count: s.total_job_count - 1,
                ..s
            }
        }),
{
}

/// The context of a thread that has ended, and of no other, is deleted; then
/// the thread is one less, and the scheduler decides.
pub proof fn law_ended_thread_is_deleted(s: SchedulerModel, thread: usize, slot_event: ThreadEvent)
    ensures
        s.step(
            SchedulerInput::Entered {
                cause: SchedulerEntryCause::ThreadReady {
                    ums_thread_context: thread,
                    cause: ThreadReadyCause::Terminated,
                },
                slot_event,
            },
        ) == (s, SchedulerStep::DeleteContext { ums_thread_context: thread }),
        s.step(SchedulerInput::ContextDeleted) == (SchedulerModel {
            thread_count_total: s.thread_count_total - 1,
            ..s
        }).step(SchedulerInput::HookReturned(None)),
{
}

/// A thread that was created is counted, as starting and in all. While more
/// are missing the next one is created; after the last one the scheduler goes
/// on as if threads had been waited for and none had appeared.
pub proof fn law_created_thread_is_counted(s: SchedulerModel, missing: usize, none: Vec<usize>)
    requires
        missing > 0,
        none@.len() == 0,
    ensures
        ({
            let counted = SchedulerModel {
                thread_count_starting: s.thread_count_starting + 1,
                thread_count_total: s.thread_count_total + 1,
                ..s
            };
            let (t, step) = s.step(SchedulerInput::ThreadCreated { missing });
            if missing > 1 {
                &&& t == counted
                &&& step matches SchedulerStep::CreateThread {
                    missing: still_missing,
                    ums_completion_list,
                }
                &&& still_missing == missing - 1
                &&& ums_completion_list == s.ums_completion_list
            } else {
                (t, step) == counted.step(SchedulerInput::ThreadsReady(none))
            }
        }),
{
    assert(s.with_starting().runnable_threads + none@ =~= s.runnable_threads);
}

/// Threads that appear on the list go behind those that can go on, in the
/// order in which they appeared. The first of all of them goes on, with its
/// slot left alone; if there is none, the scheduler waits on. Nothing else
/// changes.
pub proof fn law_threads_that_appear_go_on_in_order(s: SchedulerModel, threads: Vec<usize>)
    ensures
        ({
            let (t, step) = s.step(SchedulerInput::ThreadsReady(threads));
            let all = s.runnable_threads + threads@;
            &&& t == SchedulerModel { runnable_threads: t.runnable_threads, ..s }
            &&& if all.len() > 0 {
                &&& step matches SchedulerStep::Resume(Resumption {
                    write: None,
                    ums_thread_context,
                })
                &&& seq![ums_thread_context] + t.runnable_threads == all
            } else {
                &&& step matches SchedulerStep::WaitForThreads { ums_completion_list }
                &&& ums_completion_list == s.ums_completion_list
                &&& t.runnable_threads.len() == 0
            }
        }),
{
    let all = s.runnable_threads + threads@;
    if all.len() > 0 {
        assert(seq![all[0]] + all.drop_first() =~= all);
    }
}

/// Which entries the scheduler refuses: a thread that starts when none is
/// starting, a job beyond what can be counted, a completion when there is no
/// job, an event that is not for the scheduler, and a thread that could not be
/// resumed for good. After every other entry it decides or calls.
pub proof fn law_entries_that_are_taken(
    s: SchedulerModel,
    cause: SchedulerEntryCause,
    slot_event: ThreadEvent,
)
    requires
        s.valid(),
        s.queued_jobs.len() < usize::MAX,
        s.idle_threads.len() + s.thread_count_starting <= usize::MAX,
        s.thread_count_total >= s.thread_count_starting,
    ensures
        s.accepts(SchedulerInput::Entered { cause, slot_event }) <==> match cause {
            SchedulerEntryCause::ThreadReady { cause: ready, .. } => match ready {
                ThreadReadyCause::Yield { .. } => {
                    ||| slot_event == ThreadEvent::ThreadStartup && s.thread_count_starting > 0
                    ||| slot_event is ScheduleJob && s.total_job_count < usize::MAX
                    ||| slot_event is ThreadCompleteJob && s.total_job_count > 0
                },
                ThreadReadyCause::ExecuteFailed { .. } => false,
                _ => true,
            },
            _ => true,
        },
{
}

/// Which answers the scheduler takes: every one of a job's method and every
/// list of threads; the deletion of a context while a thread is there that is
/// not starting; and a created thread that was asked for and can be counted.
pub proof fn law_answers_that_are_taken(
    s: SchedulerModel,
    next_execution: Option<Execution>,
    threads: Vec<usize>,
    missing: usize,
)
    requires
        s.valid(),
        s.queued_jobs.len() < usize::MAX,
        s.idle_threads.len() + s.thread_count_starting <= usize::MAX,
        s.thread_count_total >= s.thread_count_starting,
    ensures
        s.accepts(SchedulerInput::HookReturned(next_execution)),
        s.accepts(SchedulerInput::ThreadsReady(threads)),
        s.thread_count_total > s.thread_count_starting ==> s.accepts(
            SchedulerInput::ContextDeleted,
        ),
        s.thread_count_total == 0 ==> !s.accepts(SchedulerInput::ContextDeleted),
        s.accepts(SchedulerInput::ThreadCreated { missing }) <==> missing > 0
            && s.thread_count_total < usize::MAX,
{
}

/// A scheduler that begins has just the jobs it was given, in their order, all
/// of them to be done; it has no thread and remembers nothing, and its list is
/// the one it was given.
pub proof fn law_beginning(ums_completion_list: usize, jobs: Seq<usize>)
    ensures
        ({
            let s = SchedulerModel::fresh(ums_completion_list, jobs);
            &&& s.queued_jobs == jobs
            &&& s.total_job_count == jobs.len()
            &&& s.idle_threads.len() == 0
            &&& s.runnable_threads.len() == 0
            &&& s.thread_count_starting == 0
            &&& s.thread_count_total == 0
            &&& s.last_execution is None
            &&& s.ums_completion_list == ums_completion_list
        }),
{
}

/// The model of a scheduler's state is what its fields hold.
pub proof fn law_model_is_what_the_fields_hold(state: crate::scheduler::SchedulerState)
    ensures
        state@.queued_jobs == state.queued_jobs@,
        state@.total_job_count == state.total_job_count,
        state@.idle_threads == state.idle_threads@,
        state@.runnable_threads == state.runnable_threads@,
        state@.thread_count_starting == state.thread_count_starting,
        state@.thread_count_total == state.thread_count_total,
        state@.last_execution == state.last_execution,
        state@.ums_completion_list == state.ums_completion_list,
{
}

/// An execution resumes its thread, with its event in its slot, and is what
/// the scheduler remembers afterwards; nothing else changes.
pub proof fn law_execution_is_carried_out(s: SchedulerModel, execution: Execution)
    ensures
        ({
            let r = execution.resumption();
            &&& r.ums_thread_context == execution.ums_thread_context
            &&& r.write matches Some(write)
            &&& write.event_slot == execution.event_slot
            &&& write.event == execution.event
            &&& s.after_execution(execution) == SchedulerModel {
                last_execution: Some(execution),
                ..s
            }
        }),
{
}

/// Books that cannot be are not decided on: a thread that is starting when no
/// thread is there, with nothing else to do.
pub proof fn law_impossible_books_are_refused(
    s: SchedulerModel,
    param: usize,
    slot_event: ThreadEvent,
)
    requires
        s.total_job_count == 0,
        s.idle_threads.len() == 0,
        s.thread_count_total == 0,
        s.thread_count_starting > 0,
    ensures
        !s.accepts(SchedulerInput::HookReturned(None)),
        !s.accepts(
            SchedulerInput::Entered {
                cause: SchedulerEntryCause::Startup { param },
                slot_event,
            },
        ),
{
}

} // verus!
