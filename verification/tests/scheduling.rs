use std::collections::{BTreeMap, VecDeque};
use ums::cause::{
    ExecuteError, SchedulerEntryCause, ThreadBlockedCause, ThreadFlags, ThreadReadyCause,
};
use ums::event::{ThreadEvent, ThreadState};
use ums::job::{BlockingJob, RunInput, RunStep};
use ums::platform::ERROR_RETRY;
use ums::scheduler::{
    scheduler_entry_impl, Execution, Executor, HookCall, Resumption, SchedulerInput,
    SchedulerState, SchedulerStep, SlotWrite,
};
use ums::worker::{can_take, thread_main, ThreadInput, ThreadStep};

const LIST: usize = 0xC0;

fn fresh(jobs: &[usize]) -> SchedulerState {
    SchedulerState::new(LIST, jobs.iter().copied().collect::<VecDeque<usize>>())
}

fn entered(cause: SchedulerEntryCause) -> SchedulerInput {
    SchedulerInput::Entered { cause, slot_event: ThreadEvent::NoEvent }
}

fn startup() -> SchedulerInput {
    entered(SchedulerEntryCause::Startup { param: 0x10 })
}

fn ready(ums_thread_context: usize, cause: ThreadReadyCause) -> SchedulerInput {
    entered(SchedulerEntryCause::ThreadReady { ums_thread_context, cause })
}

fn yielded(ums_thread_context: usize, slot: usize, slot_event: ThreadEvent) -> SchedulerInput {
    let cause = SchedulerEntryCause::ThreadReady {
        ums_thread_context,
        cause: ThreadReadyCause::Yield { param: slot },
    };
    SchedulerInput::Entered { cause, slot_event }
}

fn resume(ums_thread_context: usize, slot: usize, event: ThreadEvent) -> SchedulerStep {
    SchedulerStep::Resume(Resumption {
        write: Some(SlotWrite { event_slot: slot, event }),
        ums_thread_context,
    })
}

fn go_on(ums_thread_context: usize) -> SchedulerStep {
    SchedulerStep::Resume(Resumption { write: None, ums_thread_context })
}

fn create(missing: usize) -> SchedulerStep {
    SchedulerStep::CreateThread { missing, ums_completion_list: LIST }
}

fn wait() -> SchedulerStep {
    SchedulerStep::WaitForThreads { ums_completion_list: LIST }
}

fn step(state: &mut SchedulerState, input: SchedulerInput) -> SchedulerStep {
    assert!(state.can_take(&input));
    scheduler_entry_impl(state, input)
}

#[test]
fn new_scheduler_counts_its_jobs() {
    let state = fresh(&[1, 2, 3]);
    assert_eq!(state.total_job_count, 3);
    assert_eq!(state.queued_jobs, VecDeque::from(vec![1, 2, 3]));
    assert!(state.idle_threads.is_empty() && state.runnable_threads.is_empty());
    assert_eq!((state.thread_count_starting, state.thread_count_total), (0, 0));
    assert_eq!(state.last_execution, None);
    assert_eq!(state.ums_completion_list, LIST);
}

#[test]
fn whole_life_of_a_scheduler() {
    let mut s = fresh(&[1]);
    // One job, no threads: one thread for the job and a spare one.
    assert_eq!(step(&mut s, startup()), create(2));
    let created = SchedulerInput::ThreadCreated { missing: 2 };
    assert_eq!(step(&mut s, created), create(1));
    let created = SchedulerInput::ThreadCreated { missing: 1 };
    assert_eq!(step(&mut s, created), wait());
    assert_eq!((s.thread_count_starting, s.thread_count_total), (2, 2));
    // Both threads appear; the first one goes on.
    assert_eq!(step(&mut s, SchedulerInput::ThreadsReady(vec![0xA0, 0xB0])), go_on(0xA0));
    // It reports, and is given the job.
    let assigned = ThreadEvent::ThreadAssignedJob(1);
    assert_eq!(
        step(&mut s, yielded(0xA0, 0xA8, ThreadEvent::ThreadStartup)),
        resume(0xA0, 0xA8, assigned)
    );
    assert_eq!(
        s.last_execution,
        Some(Execution { ums_thread_context: 0xA0, event_slot: 0xA8, event: assigned })
    );
    // It stops in a system call, which the job is told.
    let blocked = SchedulerEntryCause::ThreadBlocked { cause: ThreadBlockedCause::SysCall };
    assert_eq!(
        step(&mut s, entered(blocked)),
        SchedulerStep::CallHook(HookCall::OnBlocking { job: 1, cause: ThreadBlockedCause::SysCall })
    );
    // The other thread goes on meanwhile, and reports.
    assert_eq!(step(&mut s, SchedulerInput::HookReturned(None)), go_on(0xB0));
    assert_eq!(s.last_execution, None);
    assert_eq!(
        step(&mut s, yielded(0xB0, 0xB8, ThreadEvent::ThreadStartup)),
        wait()
    );
    assert_eq!(s.idle_threads, VecDeque::from(vec![Executor::new(0xB0, 0xB8)]));
    // The first thread is back and completes the job.
    assert_eq!(step(&mut s, SchedulerInput::ThreadsReady(vec![0xA0])), go_on(0xA0));
    assert_eq!(
        step(&mut s, yielded(0xA0, 0xA8, ThreadEvent::ThreadCompleteJob(1))),
        SchedulerStep::CallHook(HookCall::OnComplete { job: 1 })
    );
    assert_eq!(s.total_job_count, 0);
    // Nothing is left to do: the threads are shut down, the last one first.
    assert_eq!(
        step(&mut s, SchedulerInput::HookReturned(None)),
        resume(0xA0, 0xA8, ThreadEvent::ThreadShutdown)
    );
    assert_eq!(
        step(&mut s, ready(0xA0, ThreadReadyCause::Terminated)),
        SchedulerStep::DeleteContext { ums_thread_context: 0xA0 }
    );
    assert_eq!(
        step(&mut s, SchedulerInput::ContextDeleted),
        resume(0xB0, 0xB8, ThreadEvent::ThreadShutdown)
    );
    assert_eq!(
        step(&mut s, ready(0xB0, ThreadReadyCause::Terminated)),
        SchedulerStep::DeleteContext { ums_thread_context: 0xB0 }
    );
    assert_eq!(step(&mut s, SchedulerInput::ContextDeleted), SchedulerStep::Exit);
    assert_eq!((s.thread_count_starting, s.thread_count_total), (0, 0));
    assert_eq!(s.ums_completion_list, LIST);
}

#[test]
fn threads_and_waits_use_the_list_of_the_scheduler() {
    let list = 0xD0;
    let mut s = SchedulerState::new(list, VecDeque::from(vec![1]));
    assert_eq!(
        step(&mut s, startup()),
        SchedulerStep::CreateThread { missing: 2, ums_completion_list: list }
    );
    assert_eq!(
        step(&mut s, SchedulerInput::ThreadCreated { missing: 2 }),
        SchedulerStep::CreateThread { missing: 1, ums_completion_list: list }
    );
    let waiting = SchedulerStep::WaitForThreads { ums_completion_list: list };
    assert_eq!(step(&mut s, SchedulerInput::ThreadCreated { missing: 1 }), waiting);
    assert_eq!(step(&mut s, SchedulerInput::ThreadsReady(vec![])), waiting);
}

#[test]
fn busy_thread_keeps_its_job() {
    let mut s = fresh(&[1, 2]);
    s.thread_count_total = 3;
    s.thread_count_starting = 2;
    s.idle_threads.push_back(Executor::new(0xA0, 0xA8));
    s.runnable_threads.push_back(0xB0);
    s.runnable_threads.push_back(0xC0);
    // The thread is given the job, but could not be resumed.
    assert_eq!(step(&mut s, startup()), resume(0xA0, 0xA8, ThreadEvent::ThreadAssignedJob(1)));
    assert_eq!(
        SchedulerEntryCause::from_execute_error(0xA0, ERROR_RETRY, ThreadFlags::new()),
        ExecuteError::Entry(SchedulerEntryCause::ThreadReady {
            ums_thread_context: 0xA0,
            cause: ThreadReadyCause::Busy,
        })
    );
    // It goes behind the threads that can go on, and nothing is given twice.
    assert_eq!(step(&mut s, ready(0xA0, ThreadReadyCause::Busy)), go_on(0xB0));
    assert_eq!(s.runnable_threads, VecDeque::from(vec![0xC0, 0xA0]));
    assert_eq!(s.queued_jobs, VecDeque::from(vec![2]));
    assert_eq!(s.total_job_count, 2);
    assert!(s.idle_threads.is_empty());
    // What others do meanwhile goes through their own slots.
    assert_eq!(
        step(&mut s, yielded(0xB0, 0xB8, ThreadEvent::ThreadStartup)),
        resume(0xB0, 0xB8, ThreadEvent::ThreadAssignedJob(2))
    );
    assert_eq!(
        step(&mut s, yielded(0xB0, 0xB8, ThreadEvent::ThreadCompleteJob(2))),
        SchedulerStep::CallHook(HookCall::OnComplete { job: 2 })
    );
    assert_eq!(step(&mut s, SchedulerInput::HookReturned(None)), go_on(0xC0));
    assert_eq!(step(&mut s, ready(0xC0, ThreadReadyCause::Busy)), go_on(0xA0));
    // It goes on with what its slot has held all the time.
    assert_eq!(
        step(&mut s, yielded(0xA0, 0xA8, ThreadEvent::ThreadCompleteJob(1))),
        SchedulerStep::CallHook(HookCall::OnComplete { job: 1 })
    );
    assert_eq!(s.total_job_count, 0);
}

/// Plays the threads and the system to the scheduler until it leaves. The
/// first job delegates the others, one after the other, and waits for each.
#[test]
fn run_leaves_nothing_undone() {
    let first = 0x100;
    let mut to_delegate = VecDeque::from(vec![0x101, 0x102, 0x103]);
    let (mut assigned, mut arrived, mut completed) = (vec![], vec![], vec![]);
    let (mut created, mut ended, mut deleted) = (vec![], vec![], vec![]);
    let mut to_appear: Vec<usize> = vec![];
    let mut invoker = 0;

    let mut s = fresh(&[first]);
    let mut input = startup();
    loop {
        input = match step(&mut s, input) {
            SchedulerStep::CallHook(HookCall::OnComplete { job }) if job != first => {
                let completion = Execution::new(invoker, invoker + 16, ThreadEvent::CompleteJob);
                SchedulerInput::HookReturned(Some(completion))
            }
            SchedulerStep::CallHook(_) => SchedulerInput::HookReturned(None),
            SchedulerStep::DeleteContext { ums_thread_context } => {
                deleted.push(ums_thread_context);
                SchedulerInput::ContextDeleted
            }
            SchedulerStep::CreateThread { missing, ums_completion_list } => {
                assert_eq!(ums_completion_list, LIST);
                let thread = 0x1000 * (created.len() + 1);
                created.push(thread);
                to_appear.push(thread);
                SchedulerInput::ThreadCreated { missing }
            }
            SchedulerStep::WaitForThreads { ums_completion_list } => {
                assert_eq!(ums_completion_list, LIST);
                assert!(!to_appear.is_empty());
                SchedulerInput::ThreadsReady(to_appear.split_off(0))
            }
            SchedulerStep::Resume(Resumption { write: None, ums_thread_context }) => {
                yielded(ums_thread_context, ums_thread_context + 8, ThreadEvent::ThreadStartup)
            }
            SchedulerStep::Resume(Resumption { write: Some(write), ums_thread_context }) => {
                let slot = ums_thread_context + 8;
                let mut job = first;
                match write.event {
                    ThreadEvent::ThreadAssignedJob(given) => {
                        assert_eq!(write.event_slot, slot);
                        assigned.push(given);
                        job = given;
                    }
                    ThreadEvent::CompleteJob => {
                        assert_eq!(ums_thread_context, invoker);
                        assert_eq!(write.event_slot, invoker + 16);
                    }
                    event => assert_eq!(event, ThreadEvent::ThreadShutdown),
                }
                if write.event == ThreadEvent::ThreadShutdown {
                    assert_eq!(write.event_slot, slot);
                    ended.push(ums_thread_context);
                    ready(ums_thread_context, ThreadReadyCause::Terminated)
                } else if job == first && !to_delegate.is_empty() {
                    invoker = ums_thread_context;
                    let delegated = to_delegate.pop_front().unwrap();
                    arrived.push(delegated);
                    yielded(invoker, invoker + 16, ThreadEvent::ScheduleJob(delegated))
                } else {
                    completed.push(job);
                    yielded(ums_thread_context, slot, ThreadEvent::ThreadCompleteJob(job))
                }
            }
            SchedulerStep::Exit => break,
        };
    }

    assert_eq!((s.total_job_count, s.thread_count_total), (0, 0));
    assert!(s.queued_jobs.is_empty() && s.idle_threads.is_empty());
    assert_eq!(arrived, vec![0x101, 0x102, 0x103]);
    assert_eq!(assigned, vec![first, 0x101, 0x102, 0x103]);
    completed.sort();
    assert_eq!(completed, vec![first, 0x101, 0x102, 0x103]);
    assert_eq!(deleted, ended);
    deleted.sort();
    assert_eq!(deleted, created);
    assert_eq!(created.len(), 3);
}

/// A worker thread: its state, and the input it goes on with next.
struct Thread {
    state: ThreadState,
    next: ThreadInput,
}

/// Has a thread go on until it yields or ends. The jobs that it runs on the
/// way go to `ran`. Gives back whether it yielded.
fn go(thread: &mut Thread, ran: &mut Vec<usize>) -> bool {
    loop {
        assert!(can_take(&thread.state, thread.next));
        thread.next = match thread_main(&mut thread.state, thread.next) {
            ThreadStep::Yield => {
                thread.next = ThreadInput::Resumed;
                return true;
            }
            ThreadStep::RunJob(job) => {
                ran.push(job);
                ThreadInput::JobReturned(job)
            }
            ThreadStep::QueryIoPending => ThreadInput::IoPending(true),
            ThreadStep::Sleep(_) => ThreadInput::Slept(0),
            ThreadStep::Return(_) => return false,
        };
    }
}

/// The scheduler and real worker threads, three jobs between them, and every
/// thread busy at the first attempt to resume it.
#[test]
fn workers_and_scheduler_together() {
    let mut s = fresh(&[0x100, 0x101, 0x102]);
    let mut threads: BTreeMap<usize, Thread> = BTreeMap::new();
    let (mut ran, mut to_appear, mut deleted) = (vec![], vec![], vec![]);
    let mut retried = false;
    let mut input = startup();
    loop {
        input = match step(&mut s, input) {
            SchedulerStep::CallHook(_) => SchedulerInput::HookReturned(None),
            SchedulerStep::DeleteContext { ums_thread_context } => {
                deleted.push(ums_thread_context);
                SchedulerInput::ContextDeleted
            }
            SchedulerStep::CreateThread { missing, .. } => {
                let context = 0x1000 * (threads.len() + 1);
                let thread = Thread { state: ThreadState::new(), next: ThreadInput::Started };
                threads.insert(context, thread);
                to_appear.push(context);
                SchedulerInput::ThreadCreated { missing }
            }
            SchedulerStep::WaitForThreads { .. } => {
                assert!(!to_appear.is_empty());
                SchedulerInput::ThreadsReady(to_appear.split_off(0))
            }
            SchedulerStep::Resume(Resumption { write, ums_thread_context }) => {
                let thread = threads.get_mut(&ums_thread_context).unwrap();
                if let Some(write) = write {
                    assert_eq!(write.event_slot, ums_thread_context + 8);
                    thread.state.set_event(write.event);
                }
                retried = !retried;
                if retried {
                    ready(ums_thread_context, ThreadReadyCause::Busy)
                } else if go(thread, &mut ran) {
                    yielded(ums_thread_context, ums_thread_context + 8, thread.state.get_event())
                } else {
                    ready(ums_thread_context, ThreadReadyCause::Terminated)
                }
            }
            SchedulerStep::Exit => break,
        };
    }
    assert_eq!((s.total_job_count, s.thread_count_total), (0, 0));
    ran.sort();
    assert_eq!(ran, vec![0x100, 0x101, 0x102]);
    deleted.sort();
    assert_eq!(deleted, threads.keys().copied().collect::<Vec<usize>>());
}

#[test]
fn scheduler_without_jobs_leaves_at_once() {
    let mut s = fresh(&[]);
    assert_eq!(step(&mut s, startup()), SchedulerStep::Exit);
}

#[test]
fn jobs_are_served_in_order_and_threads_from_the_back() {
    let mut s = fresh(&[1, 2]);
    s.idle_threads.push_back(Executor::new(0xA0, 0xA8));
    s.idle_threads.push_back(Executor::new(0xB0, 0xB8));
    assert_eq!(step(&mut s, startup()), resume(0xB0, 0xB8, ThreadEvent::ThreadAssignedJob(1)));
    assert_eq!(step(&mut s, startup()), resume(0xA0, 0xA8, ThreadEvent::ThreadAssignedJob(2)));
    assert!(s.queued_jobs.is_empty() && s.idle_threads.is_empty());
    assert_eq!(s.total_job_count, 2);
}

#[test]
fn spare_thread_is_kept() {
    let mut s = fresh(&[]);
    s.total_job_count = 1;
    assert_eq!(step(&mut s, startup()), create(1));
    s.thread_count_starting = 1;
    s.thread_count_total = 1;
    assert_eq!(step(&mut s, startup()), wait());
    s.queued_jobs.push_back(7);
    s.total_job_count = 2;
    assert_eq!(step(&mut s, startup()), create(1));
}

#[test]
fn runnable_threads_go_on_in_order() {
    let mut s = fresh(&[]);
    s.thread_count_total = 3;
    assert_eq!(step(&mut s, SchedulerInput::ThreadsReady(vec![])), wait());
    assert_eq!(step(&mut s, SchedulerInput::ThreadsReady(vec![1, 2, 3])), go_on(1));
    assert_eq!(step(&mut s, ready(1, ThreadReadyCause::Busy)), go_on(2));
    assert_eq!(step(&mut s, ready(2, ThreadReadyCause::Suspended)), go_on(3));
    assert_eq!(s.runnable_threads, VecDeque::from(vec![1, 2]));
}

#[test]
fn blocking_without_a_running_job_is_told_to_nobody() {
    let mut s = fresh(&[]);
    s.thread_count_total = 1;
    let blocked = SchedulerEntryCause::ThreadBlocked { cause: ThreadBlockedCause::Trap };
    s.last_execution = Some(Execution::new(1, 2, ThreadEvent::ThreadShutdown));
    assert_eq!(step(&mut s, entered(blocked)), wait());
    assert_eq!(s.last_execution, None);
    assert_eq!(step(&mut s, entered(blocked)), wait());
}

#[test]
fn delegated_job_comes_back_to_its_invoker() {
    let mut s = fresh(&[]);
    s.total_job_count = 1;
    s.thread_count_total = 2;
    s.idle_threads.push_back(Executor::new(0xB0, 0xB8));
    let mut job = BlockingJob::new(|| 6 * 7, 0xA0, 0xA9);
    let event_slot = match job.run(RunInput::Started { job: 0x77 }) {
        RunStep::Yield { event_slot } => event_slot,
        _ => panic!(),
    };
    assert_eq!((event_slot, job.event), (0xA9, ThreadEvent::ScheduleJob(0x77)));
    assert_eq!(
        step(&mut s, yielded(0xA0, event_slot, job.event)),
        SchedulerStep::CallHook(HookCall::OnSchedule {
            job: 0x77,
            invoker_ums_thread_context: 0xA0,
        })
    );
    let next = job.on_schedule(&mut s, 0xA0);
    assert_eq!(next, None);
    assert_eq!(
        step(&mut s, SchedulerInput::HookReturned(next)),
        resume(0xB0, 0xB8, ThreadEvent::ThreadAssignedJob(0x77))
    );
    job.main(&mut ums::event::ThreadState::new());
    assert_eq!(
        step(&mut s, yielded(0xB0, 0xB8, ThreadEvent::ThreadCompleteJob(0x77))),
        SchedulerStep::CallHook(HookCall::OnComplete { job: 0x77 })
    );
    let next = job.on_complete(&mut s);
    assert_eq!(
        step(&mut s, SchedulerInput::HookReturned(next)),
        resume(0xA0, 0xA9, ThreadEvent::CompleteJob)
    );
    assert!(matches!(job.run(RunInput::Resumed), RunStep::Return(42)));
    assert_eq!(s.total_job_count, 1);
    assert_eq!(s.idle_threads, VecDeque::from(vec![Executor::new(0xB0, 0xB8)]));
}

#[test]
fn execution_is_remembered() {
    let mut s = fresh(&[]);
    let execution = Execution::new(3, 4, ThreadEvent::CompleteJob);
    let resumption = execution.execute(&mut s);
    assert_eq!(
        resumption,
        Resumption {
            write: Some(SlotWrite { event_slot: 4, event: ThreadEvent::CompleteJob }),
            ums_thread_context: 3,
        }
    );
    assert_eq!(s.last_execution, Some(execution));
}

#[test]
fn inputs_out_of_turn_are_not_taken() {
    let mut s = fresh(&[]);
    assert!(!s.can_take(&yielded(1, 2, ThreadEvent::ThreadStartup)));
    assert!(!s.can_take(&yielded(1, 2, ThreadEvent::ThreadCompleteJob(3))));
    assert!(!s.can_take(&yielded(1, 2, ThreadEvent::NoEvent)));
    assert!(!s.can_take(&yielded(1, 2, ThreadEvent::CompleteJob)));
    assert!(!s.can_take(&yielded(1, 2, ThreadEvent::ThreadShutdown)));
    assert!(!s.can_take(&yielded(1, 2, ThreadEvent::ThreadAssignedJob(3))));
    assert!(!s.can_take(&ready(1, ThreadReadyCause::ExecuteFailed { error: 5 })));
    assert!(!s.can_take(&SchedulerInput::ContextDeleted));
    assert!(!s.can_take(&SchedulerInput::ThreadCreated { missing: 0 }));
    assert!(s.can_take(&yielded(1, 2, ThreadEvent::ScheduleJob(3))));
    s.total_job_count = usize::MAX;
    assert!(!s.can_take(&yielded(1, 2, ThreadEvent::ScheduleJob(3))));
    s.total_job_count = 0;
    assert!(s.can_take(&startup()));
    s.thread_count_starting = 1;
    assert!(!s.can_take(&startup()));
    assert!(s.can_take(&yielded(1, 2, ThreadEvent::ThreadStartup)));
    s.thread_count_total = 1;
    assert!(!s.can_take(&SchedulerInput::ContextDeleted));
}
