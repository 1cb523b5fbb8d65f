//! Jobs: functions that run on a worker thread, and what the scheduler tells
//! them on the way.
//!
//! Of each job a worker thread calls `main`, and the scheduler the three `on_`
//! methods, which tell the job what happened to it. Each of these may ask the
//! scheduler to resume a thread, and leaves the scheduler as it is.
use crate::cause::ThreadBlockedCause;
use crate::event::{ThreadEvent, ThreadState};
use crate::platform::HANDLE;
use crate::scheduler::{Execution, SchedulerState, SlotWrite};
use crate::win_result::WinResult;
use vstd::prelude::*;

verus! {

/// How far a job has come.
pub enum JobState<F, R> {
    /// The function is running, or the result was taken.
    Empty,
    /// The function has not run.
    Function(F),
    /// The function returned this.
    Result(R),
}

impl<F, R> JobState<F, R> where F: FnOnce() -> R {
    /// Whether the function is there and can be called.
    pub open spec fn ready(self) -> bool {
        self matches JobState::Function(f) && call_requires(f, ())
    }

    /// Whether `after` holds what a call of this state's function returned.
    pub open spec fn ran_to(self, after: Self) -> bool {
        self matches JobState::Function(f) && after matches JobState::Result(r)
            && call_ensures(f, (), r)
    }

    /// Whether the function has not run.
    pub fn is_function(&self) -> (is: bool)
        ensures
            is == (*self is Function),
    {
        matches!(self, JobState::Function(_))
    }

    /// Whether the function has returned and its result was not taken.
    pub fn is_result(&self) -> (is: bool)
        ensures
            is == (*self is Result),
    {
        matches!(self, JobState::Result(_))
    }

    /// Leaves `Empty` behind and hands out what was there.
    fn take(&mut self) -> (state: Self)
        ensures
            state == *old(self),
            *final(self) == JobState::<F, R>::Empty,
    {
        let mut state: Self = JobState::Empty;
        std::mem::swap(self, &mut state);
        state
    }

    /// Calls the function and keeps what it returns.
    fn advance(&mut self)
        requires
            old(self).ready(),
        ensures
            old(self).ran_to(*final(self)),
    {
        match self.take() {
            JobState::Function(f) => {
                *self = JobState::Result(f());
            },
            _ => vstd::pervasive::unreached(),
        }
    }
}

/// The job that the scheduler starts with.
#[verifier::reject_recursive_types(R)]
pub struct TopLevelJob<F, R> where F: FnOnce() -> R {
    pub state: JobState<F, R>,
}

impl<F, R> TopLevelJob<F, R> where F: FnOnce() -> R {
    pub fn new(f: F) -> (job: Self) where F: Send + 'static
        ensures
            job.state == JobState::<F, R>::Function(f),
    {
        TopLevelJob { state: JobState::Function(f) }
    }

    /// The job was queued.
    pub fn on_schedule(
        &self,
        scheduler_state: &mut SchedulerState,
        invoker_ums_thread_context: usize,
    ) -> (next: Option<Execution>)
        ensures
            next is None,
            *final(scheduler_state) == *old(scheduler_state),
    {
        None
    }

    /// Runs the job.
    pub fn main(&mut self, thread_state: &mut ThreadState)
        requires
            old(self).state.ready(),
        ensures
            old(self).state.ran_to(final(self).state),
            *final(thread_state) == *old(thread_state),
    {
        self.state.advance();
    }

    /// The thread that runs the job stopped.
    pub fn on_blocking(
        &self,
        scheduler_state: &mut SchedulerState,
        cause: ThreadBlockedCause,
    ) -> (next: Option<Execution>)
        ensures
            next is None,
            *final(scheduler_state) == *old(scheduler_state),
    {
        None
    }

    /// The job is complete.
    pub fn on_complete(&self, scheduler_state: &mut SchedulerState) -> (next: Option<Execution>)
        ensures
            next is None,
            *final(scheduler_state) == *old(scheduler_state),
    {
        None
    }
}

/// What a thread that delegates a job has to do next.
#[derive(Debug)]
pub enum RunStep<R> {
    /// Yield to the scheduler, which finds the event in this slot.
    Yield { event_slot: usize },
    /// Go on with the result of the job.
    Return(R),
}

/// What has happened to a thread that delegates a job.
#[derive(Copy, Clone, Debug, PartialEq, Eq, Structural)]
pub enum RunInput {
    /// Nothing yet. The runtime finds the job under the address `job`.
    Started { job: usize },
    /// The scheduler resumed the thread after its yield.
    Resumed,
}

/// A job that a thread delegates and waits for.
#[verifier::reject_recursive_types(R)]
pub struct BlockingJob<F, R> where F: FnOnce() -> R {
    /// The thread that waits.
    pub invoker: usize,
    /// The slot through which it talks to the scheduler meanwhile.
    pub event: ThreadEvent,
    /// The address of that slot.
    pub event_slot: usize,
    pub state: JobState<F, R>,
    /// How often the thread that runs the job stopped in a trap.
    pub traps: usize,
    /// How often it stopped in a system call.
    pub sys_calls: usize,
}

impl<F, R> BlockingJob<F, R> where F: FnOnce() -> R {
    /// The job before anything has happened to it.
    pub open spec fn fresh(f: F, invoker: usize, event_slot: usize) -> Self {
        BlockingJob {
            invoker,
            event: ThreadEvent::NoEvent,
            event_slot,
            state: JobState::<F, R>::Function(f),
            traps: 0,
            sys_calls: 0,
        }
    }

    /// Whether the thread that delegates the job can be told this: it is
    /// resumed only once the result is there.
    pub open spec fn accepts(self, input: RunInput) -> bool {
        input is Resumed ==> self.state is Result
    }

    /// What the job becomes and what the thread that delegates it does.
    pub open spec fn ran(self, input: RunInput) -> (Self, RunStep<R>) {
        match input {
            RunInput::Started { job } => (
                BlockingJob { event: ThreadEvent::ScheduleJob(job), ..self },
                RunStep::Yield { event_slot: self.event_slot },
            ),
            RunInput::Resumed => (
                BlockingJob { state: JobState::<F, R>::Empty, ..self },
                RunStep::Return(self.state->Result_0),
            ),
        }
    }

    /// What the invoker asks the scheduler for.
    pub open spec fn request(self, job: usize) -> SlotWrite {
        SlotWrite { event_slot: self.event_slot, event: ThreadEvent::ScheduleJob(job) }
    }

    /// How the invoker learns that the job is complete.
    pub open spec fn completion(self) -> Execution {
        Execution {
            ums_thread_context: self.invoker,
            event_slot: self.event_slot,
            event: ThreadEvent::CompleteJob,
        }
    }

    /// The job with one more stop counted.
    pub open spec fn stopped(self, cause: ThreadBlockedCause) -> Self {
        match cause {
            ThreadBlockedCause::Trap => BlockingJob {
                traps: (self.traps + 1) as usize,
                ..self
            },
            ThreadBlockedCause::SysCall => BlockingJob {
                sys_calls: (self.sys_calls + 1) as usize,
                ..self
            },
        }
    }

    /// A job for the thread `invoker`, which is what the system said of the
    /// caller and must be a thread of the scheduler's. `event_slot` is where
    /// the job's event will be found.
    pub fn new(f: F, invoker: HANDLE, event_slot: usize) -> (job: Self) where
        F: Send + 'static,
        R: 'static,

        requires
            invoker.success() is Some,
        ensures
            job == Self::fresh(f, invoker, event_slot),
    {
        BlockingJob {
            invoker: invoker.unwrap(),
            event: Default::default(),
            event_slot,
            state: JobState::Function(f),
            traps: 0,
            sys_calls: 0,
        }
    }

    /// Whether the thread that delegates the job can be told this.
    pub fn can_run(&self, input: RunInput) -> (can: bool)
        ensures
            can == self.accepts(input),
    {
        match input {
            RunInput::Started { .. } => true,
            RunInput::Resumed => self.state.is_result(),
        }
    }

    /// Takes what has happened to the thread that delegates the job and says
    /// what it does next: it leaves a request for the job in its slot and
    /// yields once, and then has the result.
    pub fn run(&mut self, input: RunInput) -> (step: RunStep<R>)
        requires
            old(self).accepts(input),
        ensures
            (*final(self), step) == old(self).ran(input),
    {
        match input {
            RunInput::Started { job } => {
                self.event = ThreadEvent::ScheduleJob(job);
                RunStep::Yield { event_slot: self.event_slot }
            },
            RunInput::Resumed => match self.state.take() {
                JobState::Result(result) => RunStep::Return(result),
                _ => vstd::pervasive::unreached(),
            },
        }
    }

    /// The job was queued.
    pub fn on_schedule(
        &self,
        scheduler_state: &mut SchedulerState,
        invoker_ums_thread_context: usize,
    ) -> (next: Option<Execution>)
        ensures
            next is None,
            *final(scheduler_state) == *old(scheduler_state),
    {
        None
    }

    /// Runs the job.
    pub fn main(&mut self, thread_state: &mut ThreadState)
        requires
            old(self).state.ready(),
        ensures
            old(self).state.ran_to(final(self).state),
            *final(self) == (BlockingJob { state: final(self).state, ..*old(self) }),
            *final(thread_state) == *old(thread_state),
    {
        self.state.advance();
    }

    /// Whether one more stop can be counted.
    pub open spec fn countable(self, cause: ThreadBlockedCause) -> bool {
        match cause {
            ThreadBlockedCause::Trap => self.traps < usize::MAX,
            ThreadBlockedCause::SysCall => self.sys_calls < usize::MAX,
        }
    }

    /// Whether one more stop can be counted.
    pub fn can_count(&self, cause: ThreadBlockedCause) -> (can: bool)
        ensures
            can == self.countable(cause),
    {
        match cause {
            ThreadBlockedCause::Trap => self.traps < usize::MAX,
            ThreadBlockedCause::SysCall => self.sys_calls < usize::MAX,
        }
    }

    /// The thread that runs the job stopped, which is counted.
    pub fn on_blocking(
        &mut self,
        scheduler_state: &mut SchedulerState,
        cause: ThreadBlockedCause,
    ) -> (next: Option<Execution>)
        requires
            old(self).countable(cause),
        ensures
            next is None,
            *final(self) == old(self).stopped(cause),
            *final(scheduler_state) == *old(scheduler_state),
    {
        match cause {
            ThreadBlockedCause::Trap => {
                self.traps = self.traps + 1;
            },
            ThreadBlockedCause::SysCall => {
                self.sys_calls = self.sys_calls + 1;
            },
        }
        None
    }

    /// The job is complete: the invoker is to be resumed.
    pub fn on_complete(&self, scheduler_state: &mut SchedulerState) -> (next: Option<Execution>)
        ensures
            next == Some(self.completion()),
            *final(scheduler_state) == *old(scheduler_state),
    {
        Some(Execution::new(self.invoker, self.event_slot, ThreadEvent::CompleteJob))
    }
}

/// A job that was just made has its function to run, belongs to the very
/// thread and slot it was made for, has an empty slot and has counted nothing.
pub proof fn law_new_job<F, R>(f: F, invoker: usize, event_slot: usize) where F: FnOnce() -> R
    ensures
        ({
            let job = BlockingJob::<F, R>::fresh(f, invoker, event_slot);
            &&& job.invoker == invoker
            &&& job.event_slot == event_slot
            &&& job.event == ThreadEvent::NoEvent
            &&& job.state == JobState::<F, R>::Function(f)
            &&& job.traps == 0
            &&& job.sys_calls == 0
        }),
{
}

/// Whatever has happened to a job, its completion resumes the thread that
/// waits for it, with the report in the slot through which that thread waits;
/// and that is the slot in which the thread asked for the job.
pub proof fn law_completion_goes_where_the_request_came_from<F, R>(
    blocking: BlockingJob<F, R>,
    job: usize,
) where F: FnOnce() -> R
    ensures
        blocking.completion().ums_thread_context == blocking.invoker,
        blocking.completion().event_slot == blocking.event_slot,
        blocking.completion().event == ThreadEvent::CompleteJob,
        blocking.request(job).event_slot == blocking.event_slot,
        blocking.request(job).event == ThreadEvent::ScheduleJob(job),
{
}

/// A thread that delegates a job leaves the request for it in the job's slot
/// and yields with that slot. Once it is resumed, which it is only with the
/// result there, it goes on with that result and takes it away. Nothing else
/// of the job changes.
pub proof fn law_delegation<F, R>(blocking: BlockingJob<F, R>, job: usize, result: R) where
    F: FnOnce() -> R,

    ensures
        ({
            let (asked, step) = blocking.ran(RunInput::Started { job });
            &&& blocking.accepts(RunInput::Started { job })
            &&& step matches RunStep::Yield { event_slot }
            &&& event_slot == blocking.event_slot
            &&& asked == BlockingJob { event: ThreadEvent::ScheduleJob(job), ..blocking }
        }),
        blocking.accepts(RunInput::Resumed) <==> blocking.state is Result,
        blocking.state == JobState::<F, R>::Result(result) ==> ({
            let (taken, step) = blocking.ran(RunInput::Resumed);
            &&& step == RunStep::Return(result)
            &&& taken == BlockingJob { state: JobState::<F, R>::Empty, ..blocking }
        }),
{
}

/// A stop is counted by its cause, once, as long as the count can hold it, and
/// changes nothing else.
pub proof fn law_stop_is_counted<F, R>(blocking: BlockingJob<F, R>) where F: FnOnce() -> R
    ensures
        blocking.countable(ThreadBlockedCause::Trap) <==> blocking.traps < usize::MAX,
        blocking.countable(ThreadBlockedCause::SysCall) <==> blocking.sys_calls < usize::MAX,
        blocking.traps < usize::MAX ==> ({
            let after = blocking.stopped(ThreadBlockedCause::Trap);
            &&& after.traps == blocking.traps + 1
            &&& after == BlockingJob { traps: after.traps, ..blocking }
        }),
        blocking.sys_calls < usize::MAX ==> ({
            let after = blocking.stopped(ThreadBlockedCause::SysCall);
            &&& after.sys_calls == blocking.sys_calls + 1
            &&& after == BlockingJob { sys_calls: after.sys_calls, ..blocking }
        }),
{
}

/// A job runs its function once: it can be run as long as the function is
/// there and can be called, and afterwards the function is gone and what it
/// returned is there.
pub proof fn law_function_runs_once<F, R>(
    before: JobState<F, R>,
    after: JobState<F, R>,
    f: F,
) where F: FnOnce() -> R
    ensures
        JobState::<F, R>::Function(f).ready() <==> call_requires(f, ()),
        before.ready() ==> before is Function,
        before.ran_to(after) ==> before is Function && after is Result && !after.ready(),
        JobState::<F, R>::Function(f).ran_to(after) <==> (after matches JobState::Result(r)
            && call_ensures(f, (), r)),
{
}

} // verus!
