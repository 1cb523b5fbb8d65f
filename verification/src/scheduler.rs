//! The scheduler: which thread runs next, and with which event.
//!
//! The scheduler owns its queues and counters and decides; the program around
//! it makes the system calls. A run of `scheduler_entry_impl` is a dialogue:
//! each call takes what has happened and answers with the next step, until
//! that step is to resume a thread or to leave the scheduler.
use crate::cause::{SchedulerEntryCause, ThreadBlockedCause, ThreadReadyCause};
use crate::event::ThreadEvent;
use std::collections::VecDeque;
use vstd::prelude::*;

verus! {

/// How many threads to keep beyond those that the queued jobs need.
pub const THREADS_SPARE: usize = 1;

/// A worker thread that waits for a job.
#[derive(Copy, Clone, Debug, PartialEq, Eq, Structural)]
pub struct Executor {
    pub ums_thread_context: usize,
    pub event_slot: usize,
}

impl Executor {
    pub fn new(ums_thread_context: usize, event_slot: usize) -> (executor: Self)
        ensures
            executor == (Executor { ums_thread_context, event_slot }),
    {
        Executor { ums_thread_context, event_slot }
    }
}

/// A thread to resume, with the event to leave in its slot.
#[derive(Copy, Clone, Debug, PartialEq, Eq, Structural)]
pub struct Execution {
    pub ums_thread_context: usize,
    pub event_slot: usize,
    pub event: ThreadEvent,
}

/// An event to write into a slot.
#[derive(Copy, Clone, Debug, PartialEq, Eq, Structural)]
pub struct SlotWrite {
    pub event_slot: usize,
    pub event: ThreadEvent,
}

/// A thread to resume, after the write if there is one.
#[derive(Copy, Clone, Debug, PartialEq, Eq, Structural)]
pub struct Resumption {
    pub write: Option<SlotWrite>,
    pub ums_thread_context: usize,
}

impl Execution {
    pub fn new(
        ums_thread_context: usize,
        event_slot: usize,
        event: ThreadEvent,
    ) -> (execution: Self)
        ensures
            execution == (Execution { ums_thread_context, event_slot, event }),
    {
        Execution { ums_thread_context, event_slot, event }
    }

    /// The resumption that carries the execution out.
    pub open spec fn resumption(self) -> Resumption {
        Resumption {
            write: Some(SlotWrite { event_slot: self.event_slot, event: self.event }),
            ums_thread_context: self.ums_thread_context,
        }
    }

    /// Makes this the scheduler's last execution and says how to carry it out.
    pub fn execute(self, scheduler_state: &mut SchedulerState) -> (resumption: Resumption)
        ensures
            final(scheduler_state)@ == old(scheduler_state)@.after_execution(self),
            resumption == self.resumption(),
    {
        scheduler_state.last_execution = Some(self);
        Resumption {
            write: Some(SlotWrite { event_slot: self.event_slot, event: self.event }),
            ums_thread_context: self.ums_thread_context,
        }
    }
}

/// What the scheduler knows.
#[derive(Debug)]
pub struct SchedulerState {
    /// The jobs that no thread has been given yet, in the order of arrival.
    pub queued_jobs: VecDeque<usize>,
    /// The jobs that are not complete, queued or not.
    pub total_job_count: usize,
    /// The threads that wait for a job.
    pub idle_threads: VecDeque<Executor>,
    /// The threads that can go on with what they were doing.
    pub runnable_threads: VecDeque<usize>,
    /// The threads that were created and have not reported yet.
    pub thread_count_starting: usize,
    /// The threads that were created and have not ended.
    pub thread_count_total: usize,
    /// The execution that led to the present entry.
    pub last_execution: Option<Execution>,
    pub ums_completion_list: usize,
}

/// The contents of a `SchedulerState`.
#[verifier::ext_equal]
pub struct SchedulerModel {
    pub queued_jobs: Seq<usize>,
    pub total_job_count: int,
    pub idle_threads: Seq<Executor>,
    pub runnable_threads: Seq<usize>,
    pub thread_count_starting: int,
    pub thread_count_total: int,
    pub last_execution: Option<Execution>,
    pub ums_completion_list: usize,
}

impl View for SchedulerState {
    type V = SchedulerModel;

    open spec fn view(&self) -> SchedulerModel {
        SchedulerModel {
            queued_jobs: self.queued_jobs@,
            total_job_count: self.total_job_count as int,
            idle_threads: self.idle_threads@,
            runnable_threads: self.runnable_threads@,
            thread_count_starting: self.thread_count_starting as int,
            thread_count_total: self.thread_count_total as int,
            last_execution: self.last_execution,
            ums_completion_list: self.ums_completion_list,
        }
    }
}

/// A method of a job that the scheduler has to call.
#[derive(Copy, Clone, Debug, PartialEq, Eq, Structural)]
pub enum HookCall {
    OnSchedule { job: usize, invoker_ums_thread_context: usize },
    OnBlocking { job: usize, cause: ThreadBlockedCause },
    OnComplete { job: usize },
}

/// The next step of the scheduler.
#[derive(Copy, Clone, Debug, PartialEq, Eq, Structural)]
pub enum SchedulerStep {
    /// Call this method of a job.
    CallHook(HookCall),
    /// Delete the context of a thread that has ended.
    DeleteContext { ums_thread_context: usize },
    /// Create a thread that reports to this list, the first of `missing`.
    CreateThread { missing: usize, ums_completion_list: usize },
    /// Wait until threads appear on this list.
    WaitForThreads { ums_completion_list: usize },
    /// Resume a thread.
    Resume(Resumption),
    /// Leave the scheduler.
    Exit,
}

/// What has happened since the last step.
#[derive(Debug)]
pub enum SchedulerInput {
    /// The scheduler was entered. `slot_event` is what the slot of a thread
    /// that yielded holds; for any other cause it is not looked at.
    Entered { cause: SchedulerEntryCause, slot_event: ThreadEvent },
    /// The method of the job returned this.
    HookReturned(Option<Execution>),
    /// The context was deleted.
    ContextDeleted,
    /// The first of `missing` threads was created.
    ThreadCreated { missing: usize },
    /// These threads appeared on the completion list, in this order.
    ThreadsReady(Vec<usize>),
}

impl SchedulerModel {
    /// A scheduler with these jobs to run and no threads yet.
    pub open spec fn fresh(ums_completion_list: usize, queued_jobs: Seq<usize>) -> Self {
        SchedulerModel {
            queued_jobs,
            total_job_count: queued_jobs.len() as int,
            idle_threads: Seq::empty(),
            runnable_threads: Seq::empty(),
            thread_count_starting: 0,
            thread_count_total: 0,
            last_execution: None,
            ums_completion_list,
        }
    }

    /// Whether the counters are ones that a machine can hold.
    pub open spec fn valid(self) -> bool {
        &&& 0 <= self.total_job_count <= usize::MAX
        &&& 0 <= self.thread_count_starting <= usize::MAX
        &&& 0 <= self.thread_count_total <= usize::MAX
    }

    /// The scheduler with this as its last execution.
    pub open spec fn after_execution(self, execution: Execution) -> Self {
        SchedulerModel { last_execution: Some(execution), ..self }
    }

    /// The scheduler with one more idle thread.
    pub open spec fn with_idle(self, ums_thread_context: usize, event_slot: usize) -> Self {
        SchedulerModel {
            idle_threads: self.idle_threads.push(Executor { ums_thread_context, event_slot }),
            ..self
        }
    }

    /// The job that the last execution assigned to a thread, if it did.
    pub open spec fn last_job(self) -> Option<usize> {
        match self.last_execution {
            Some(execution) => match execution.event {
                ThreadEvent::ThreadAssignedJob(job) => Some(job),
                _ => None,
            },
            None => None,
        }
    }

    /// The execution that gives the idle thread that came last an event.
    pub open spec fn execution_of_last_idle(self, event: ThreadEvent) -> Execution {
        Execution {
            ums_thread_context: self.idle_threads.last().ums_thread_context,
            event_slot: self.idle_threads.last().event_slot,
            event,
        }
    }

    /// How many threads are missing for the queued jobs and the spare one.
    pub open spec fn threads_short(self) -> int {
        let avail = self.idle_threads.len() + self.thread_count_starting;
        let needed = self.queued_jobs.len() + THREADS_SPARE;
        if needed > avail {
            needed - avail
        } else {
            0
        }
    }

    /// Whether the scheduler can take the entry.
    pub open spec fn admits(self, cause: SchedulerEntryCause, slot_event: ThreadEvent) -> bool {
        match cause {
            SchedulerEntryCause::ThreadReady { cause: ThreadReadyCause::Yield { .. }, .. } => {
                match slot_event {
                    ThreadEvent::ThreadStartup => self.thread_count_starting > 0,
                    ThreadEvent::ScheduleJob(_) => self.total_job_count < usize::MAX,
                    ThreadEvent::ThreadCompleteJob(_) => self.total_job_count > 0,
                    _ => false,
                }
            },
            SchedulerEntryCause::ThreadReady {
                cause: ThreadReadyCause::ExecuteFailed { .. },
                ..
            } => false,
            _ => true,
        }
    }

    /// The scheduler once it has noted why it was entered.
    pub open spec fn noted(self, cause: SchedulerEntryCause, slot_event: ThreadEvent) -> Self {
        match cause {
            SchedulerEntryCause::Startup { .. } => self,
            SchedulerEntryCause::ThreadBlocked { .. } => self,
            SchedulerEntryCause::ThreadReady { ums_thread_context, cause } => match cause {
                ThreadReadyCause::Yield { param } => match slot_event {
                    ThreadEvent::ThreadStartup => SchedulerModel {
                        thread_count_starting: self.thread_count_starting - 1,
                        ..self.with_idle(ums_thread_context, param)
                    },
                    ThreadEvent::ScheduleJob(job) => SchedulerModel {
                        queued_jobs: self.queued_jobs.push(job),
                        total_job_count: self.total_job_count + 1,
                        ..self
                    },
                    ThreadEvent::ThreadCompleteJob(_) => SchedulerModel {
                        total_job_count: self.total_job_count - 1,
                        ..self.with_idle(ums_thread_context, param)
                    },
                    _ => self,
                },
                ThreadReadyCause::Terminated => self,
                ThreadReadyCause::ExecuteFailed { .. } => self,
                ThreadReadyCause::Busy | ThreadReadyCause::Suspended => SchedulerModel {
                    runnable_threads: self.runnable_threads.push(ums_thread_context),
                    ..self
                },
            },
        }
    }

    /// What has to be done outside before the scheduler can decide.
    pub open spec fn errand(
        self,
        cause: SchedulerEntryCause,
        slot_event: ThreadEvent,
    ) -> Option<SchedulerStep> {
        match cause {
            SchedulerEntryCause::Startup { .. } => None,
            SchedulerEntryCause::ThreadBlocked { cause } => match self.last_job() {
                Some(job) => Some(SchedulerStep::CallHook(HookCall::OnBlocking { job, cause })),
                None => None,
            },
            SchedulerEntryCause::ThreadReady { ums_thread_context, cause } => match cause {
                ThreadReadyCause::Yield { .. } => match slot_event {
                    ThreadEvent::ScheduleJob(job) => Some(
                        SchedulerStep::CallHook(
                            HookCall::OnSchedule {
                                job,
                                invoker_ums_thread_context: ums_thread_context,
                            },
                        ),
                    ),
                    ThreadEvent::ThreadCompleteJob(job) => Some(
                        SchedulerStep::CallHook(HookCall::OnComplete { job }),
                    ),
                    _ => None,
                },
                ThreadReadyCause::Terminated => Some(
                    SchedulerStep::DeleteContext { ums_thread_context },
                ),
                _ => None,
            },
        }
    }

    /// Whether the scheduler can decide: no count it needs exceeds the
    /// machine's, and none of its threads is starting when it has none.
    pub open spec fn decidable(self, next_execution: Option<Execution>) -> bool {
        next_execution is None ==> {
            &&& self.queued_jobs.len() + THREADS_SPARE <= usize::MAX
            &&& self.idle_threads.len() + self.thread_count_starting <= usize::MAX
            &&& self.total_job_count == 0 && self.idle_threads.len() == 0
                && self.thread_count_total == 0 ==> self.thread_count_starting == 0
        }
    }

    /// Resumes the thread that has been runnable for longest, or waits.
    pub open spec fn selected(self) -> (Self, SchedulerStep) {
        if self.runnable_threads.len() > 0 {
            (
                SchedulerModel { runnable_threads: self.runnable_threads.drop_first(), ..self },
                SchedulerStep::Resume(
                    Resumption { write: None, ums_thread_context: self.runnable_threads[0] },
                ),
            )
        } else {
            (
                self,
                SchedulerStep::WaitForThreads { ums_completion_list: self.ums_completion_list },
            )
        }
    }

    /// The decision. In this order: what a job's method asked for; the oldest
    /// queued job for the thread that became idle last; while there are jobs,
    /// the threads that are missing; once there are none, the shutdown of the
    /// thread that became idle last, and the end when no thread is left; and
    /// otherwise a thread that can go on.
    pub open spec fn decided(self, next_execution: Option<Execution>) -> (Self, SchedulerStep) {
        let s = SchedulerModel { last_execution: None, ..self };
        match next_execution {
            Some(execution) => (
                s.after_execution(execution),
                SchedulerStep::Resume(execution.resumption()),
            ),
            None => if s.queued_jobs.len() > 0 && s.idle_threads.len() > 0 {
                let execution = s.execution_of_last_idle(
                    ThreadEvent::ThreadAssignedJob(s.queued_jobs[0]),
                );
                (
                    SchedulerModel {
                        queued_jobs: s.queued_jobs.drop_first(),
                        idle_threads: s.idle_threads.drop_last(),
                        ..s
                    }.after_execution(execution),
                    SchedulerStep::Resume(execution.resumption()),
                )
            } else if s.total_job_count > 0 {
                if s.threads_short() > 0 {
                    (
                        s,
                        SchedulerStep::CreateThread {
                            missing: s.threads_short() as usize,
                            ums_completion_list: s.ums_completion_list,
                        },
                    )
                } else {
                    s.selected()
                }
            } else if s.idle_threads.len() > 0 {
                let execution = s.execution_of_last_idle(ThreadEvent::ThreadShutdown);
                (
                    SchedulerModel {
                        idle_threads: s.idle_threads.drop_last(),
                        ..s
                    }.after_execution(execution),
                    SchedulerStep::Resume(execution.resumption()),
                )
            } else if s.thread_count_total == 0 {
                (s, SchedulerStep::Exit)
            } else {
                s.selected()
            },
        }
    }

    /// The scheduler with one more thread that starts.
    pub open spec fn with_starting(self) -> Self {
        SchedulerModel {
            thread_count_starting: self.thread_count_starting + 1,
            thread_count_total: self.thread_count_total + 1,
            ..self
        }
    }

    /// The scheduler with one thread less.
    pub open spec fn without_thread(self) -> Self {
        SchedulerModel { thread_count_total: self.thread_count_total - 1, ..self }
    }

    /// The scheduler with more threads that can go on.
    pub open spec fn with_runnable(self, threads: Seq<usize>) -> Self {
        SchedulerModel { runnable_threads: self.runnable_threads + threads, ..self }
    }

    /// Whether the scheduler can take the input.
    pub open spec fn accepts(self, input: SchedulerInput) -> bool {
        match input {
            SchedulerInput::Entered { cause, slot_event } => {
                &&& self.admits(cause, slot_event)
                &&& self.errand(cause, slot_event) is None ==> self.noted(
                    cause,
                    slot_event,
                ).decidable(None)
            },
            SchedulerInput::HookReturned(next_execution) => self.decidable(next_execution),
            SchedulerInput::ContextDeleted => {
                &&& self.thread_count_total > 0
                &&& self.without_thread().decidable(None)
            },
            SchedulerInput::ThreadCreated { missing } => {
                &&& missing > 0
                &&& self.thread_count_starting < usize::MAX
                &&& self.thread_count_total < usize::MAX
            },
            SchedulerInput::ThreadsReady(_) => true,
        }
    }

    /// What the scheduler becomes and does on the input.
    pub open spec fn step(self, input: SchedulerInput) -> (Self, SchedulerStep) {
        match input {
            SchedulerInput::Entered { cause, slot_event } => {
                match self.errand(cause, slot_event) {
                    Some(step) => (self.noted(cause, slot_event), step),
                    None => self.noted(cause, slot_event).decided(None),
                }
            },
            SchedulerInput::HookReturned(next_execution) => self.decided(next_execution),
            SchedulerInput::ContextDeleted => self.without_thread().decided(None),
            SchedulerInput::ThreadCreated { missing } => if missing > 1 {
                (
                    self.with_starting(),
                    SchedulerStep::CreateThread {
                        missing: (missing - 1) as usize,
                        ums_completion_list: self.ums_completion_list,
                    },
                )
            } else {
                self.with_starting().selected()
            },
            SchedulerInput::ThreadsReady(threads) => self.with_runnable(threads@).selected(),
        }
    }
}

impl SchedulerState {
    /// A scheduler with these jobs to run and no threads yet.
    pub fn new(ums_completion_list: usize, queued_jobs: VecDeque<usize>) -> (state: Self)
        ensures
            state@ == SchedulerModel::fresh(ums_completion_list, queued_jobs@),
    {
        let total_job_count: usize = queued_jobs.len();
        SchedulerState {
            queued_jobs,
            total_job_count,
            idle_threads: VecDeque::new(),
            runnable_threads: VecDeque::new(),
            thread_count_starting: 0,
            thread_count_total: 0,
            last_execution: None,
            ums_completion_list,
        }
    }

    /// Whether the scheduler could decide with this many threads.
    fn can_decide(&self, thread_count_total: usize) -> (decidable: bool)
        ensures
            decidable == (SchedulerModel {
                thread_count_total: thread_count_total as int,
                ..self@
            }).decidable(None),
    {
        let threads_avail: Option<usize> = self.idle_threads.len().checked_add(
            self.thread_count_starting,
        );
        self.queued_jobs.len() <= usize::MAX - THREADS_SPARE && threads_avail.is_some() && !(
        self.total_job_count == 0 && self.idle_threads.len() == 0 && thread_count_total == 0
            && self.thread_count_starting != 0)
    }

    /// Whether the scheduler can take the input. It cannot take what a thread
    /// that keeps to its part would not do.
    pub fn can_take(&self, input: &SchedulerInput) -> (can: bool)
        ensures
            can == self@.accepts(*input),
    {
        match input {
            SchedulerInput::Entered { cause, slot_event } => match *cause {
                SchedulerEntryCause::Startup { .. } => self.can_decide(self.thread_count_total),
                SchedulerEntryCause::ThreadBlocked { .. } => match self.last_execution {
                    Some(
                        Execution { event: ThreadEvent::ThreadAssignedJob(_), .. },
                    ) => true,
                    _ => self.can_decide(self.thread_count_total),
                },
                SchedulerEntryCause::ThreadReady { cause, .. } => match cause {
                    ThreadReadyCause::Yield { .. } => match *slot_event {
                        ThreadEvent::ThreadStartup => {
                            let threads_avail: Option<usize> = self.idle_threads.len().checked_add(
                                self.thread_count_starting,
                            );
                            self.thread_count_starting > 0 && self.queued_jobs.len() <= usize::MAX
                                - THREADS_SPARE && threads_avail.is_some()
                        },
                        ThreadEvent::ScheduleJob(_) => self.total_job_count < usize::MAX,
                        ThreadEvent::ThreadCompleteJob(_) => self.total_job_count > 0,
                        _ => false,
                    },
                    ThreadReadyCause::Terminated => true,
                    ThreadReadyCause::ExecuteFailed { .. } => false,
                    ThreadReadyCause::Busy | ThreadReadyCause::Suspended => self.can_decide(
                        self.thread_count_total,
                    ),
                },
            },
            SchedulerInput::HookReturned(next_execution) => next_execution.is_some()
                || self.can_decide(self.thread_count_total),
            SchedulerInput::ContextDeleted => self.thread_count_total > 0 && self.can_decide(
                self.thread_count_total - 1,
            ),
            SchedulerInput::ThreadCreated { missing } => *missing > 0 && self.thread_count_starting
                < usize::MAX && self.thread_count_total < usize::MAX,
            SchedulerInput::ThreadsReady(_) => true,
        }
    }

    /// Notes why the scheduler was entered and says what has to be done
    /// outside before it can decide, if anything.
    fn note(&mut self, cause: SchedulerEntryCause, slot_event: ThreadEvent) -> (errand: Option<
        SchedulerStep,
    >)
        requires
            old(self)@.admits(cause, slot_event),
        ensures
            final(self)@ == old(self)@.noted(cause, slot_event),
            errand == old(self)@.errand(cause, slot_event),
    {
        match cause {
            SchedulerEntryCause::Startup { .. } => None,
            SchedulerEntryCause::ThreadBlocked { cause } => match self.last_execution {
                Some(execution) => match execution.event {
                    ThreadEvent::ThreadAssignedJob(job) => Some(
                        SchedulerStep::CallHook(HookCall::OnBlocking { job, cause }),
                    ),
                    _ => None,
                },
                None => None,
            },
            SchedulerEntryCause::ThreadReady { ums_thread_context, cause } => match cause {
                ThreadReadyCause::Yield { param } => match slot_event {
                    ThreadEvent::ThreadStartup => {
                        self.idle_threads.push_back(Executor::new(ums_thread_context, param));
                        self.thread_count_starting = self.thread_count_starting - 1;
                        None
                    },
                    ThreadEvent::ScheduleJob(job) => {
                        self.queued_jobs.push_back(job);
                        self.total_job_count = self.total_job_count + 1;
                        Some(
                            SchedulerStep::CallHook(
                                HookCall::OnSchedule {
                                    job,
                                    invoker_ums_thread_context: ums_thread_context,
                                },
                            ),
                        )
                    },
                    ThreadEvent::ThreadCompleteJob(job) => {
                        self.idle_threads.push_back(Executor::new(ums_thread_context, param));
                        self.total_job_count = self.total_job_count - 1;
                        Some(SchedulerStep::CallHook(HookCall::OnComplete { job }))
                    },
                    _ => None,
                },
                ThreadReadyCause::Terminated => Some(
                    SchedulerStep::DeleteContext { ums_thread_context },
                ),
                ThreadReadyCause::ExecuteFailed { .. } => None,
                ThreadReadyCause::Busy | ThreadReadyCause::Suspended => {
                    self.runnable_threads.push_back(ums_thread_context);
                    None
                },
            },
        }
    }

    /// Gives the idle thread that came last an event.
    fn execute_last_idle(&mut self, event: ThreadEvent) -> (resumption: Resumption)
        requires
            old(self)@.idle_threads.len() > 0,
        ensures
            ({
                let execution = old(self)@.execution_of_last_idle(event);
                &&& resumption == execution.resumption()
                &&& final(self)@ == (SchedulerModel {
                    idle_threads: old(self)@.idle_threads.drop_last(),
                    ..old(self)@
                }).after_execution(execution)
            }),
    {
        let executor: Executor = self.idle_threads.pop_back().unwrap();
        let execution: Execution = Execution::new(
            executor.ums_thread_context,
            executor.event_slot,
            event,
        );
        execution.execute(self)
    }

    /// Resumes the thread that has been runnable for longest, or waits.
    fn select(&mut self) -> (step: SchedulerStep)
        ensures
            (final(self)@, step) == old(self)@.selected(),
    {
        match self.runnable_threads.pop_front() {
            Some(ums_thread_context) => SchedulerStep::Resume(
                Resumption { write: None, ums_thread_context },
            ),
            None => SchedulerStep::WaitForThreads {
                ums_completion_list: self.ums_completion_list,
            },
        }
    }

    /// Decides what to do next.
    fn decide(&mut self, next_execution: Option<Execution>) -> (step: SchedulerStep)
        requires
            old(self)@.decidable(next_execution),
        ensures
            (final(self)@, step) == old(self)@.decided(next_execution),
    {
        self.last_execution = None;
        if let Some(next_execution) = next_execution {
            return SchedulerStep::Resume(next_execution.execute(self));
        }
        if self.queued_jobs.len() > 0 && self.idle_threads.len() > 0 {
            let job: usize = self.queued_jobs.pop_front().unwrap();
            return SchedulerStep::Resume(
                self.execute_last_idle(ThreadEvent::ThreadAssignedJob(job)),
            );
        }
        if self.total_job_count > 0 {
            // Without jobs this is skipped: the scheduler is to shut down
            // then, not to bring new threads up.
            let threads_avail: usize = self.idle_threads.len() + self.thread_count_starting;
            let threads_needed: usize = self.queued_jobs.len() + THREADS_SPARE;
            let threads_short: usize = threads_needed.saturating_sub(threads_avail);
            if threads_short > 0 {
                return SchedulerStep::CreateThread {
                    missing: threads_short,
                    ums_completion_list: self.ums_completion_list,
                };
            }
        } else {
            if self.idle_threads.len() > 0 {
                return SchedulerStep::Resume(self.execute_last_idle(ThreadEvent::ThreadShutdown));
            }
            if self.thread_count_total == 0 {
                return SchedulerStep::Exit;
            }
        }
        self.select()
    }
}

/// Takes what has happened and says what the scheduler does next.
pub fn scheduler_entry_impl(state: &mut SchedulerState, input: SchedulerInput) -> (step:
    SchedulerStep)
    requires
        old(state)@.accepts(input),
    ensures
        (final(state)@, step) == old(state)@.step(input),
{
    match input {
        SchedulerInput::Entered { cause, slot_event } => {
            match state.note(cause, slot_event) {
                Some(step) => step,
                None => state.decide(None),
            }
        },
        SchedulerInput::HookReturned(next_execution) => state.decide(next_execution),
        SchedulerInput::ContextDeleted => {
            state.thread_count_total = state.thread_count_total - 1;
            state.decide(None)
        },
        SchedulerInput::ThreadCreated { missing } => {
            state.thread_count_starting = state.thread_count_starting + 1;
            state.thread_count_total = state.thread_count_total + 1;
            if missing > 1 {
                SchedulerStep::CreateThread {
                    missing: missing - 1,
                    ums_completion_list: state.ums_completion_list,
                }
            } else {
                state.select()
            }
        },
        SchedulerInput::ThreadsReady(threads) => {
            let ghost before = state@;
            let mut i: usize = 0;
            assert(threads@.take(0) =~= Seq::<usize>::empty());
            while i < threads.len()
                invariant
                    i <= threads.len(),
                    state@ == before.with_runnable(threads@.take(i as int)),
                decreases threads.len() - i,
            {
                state.runnable_threads.push_back(threads[i]);
                i = i + 1;
                assert(threads@.take(i as int) =~= threads@.take(i - 1).push(threads@[i - 1]));
            }
            assert(threads@.take(i as int) =~= threads@);
            state.select()
        },
    }
}

} // verus!
