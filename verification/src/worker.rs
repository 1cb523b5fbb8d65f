//! A worker thread: it reports to the scheduler, runs the jobs it is given
//! one after the other, and ends when it is told to.
use crate::event::{ThreadEvent, ThreadState};
use crate::platform::{BOOL, DWORD, FALSE, TRUE, WAIT_IO_COMPLETION};
use crate::win_result::WinResult;
use std::io;
use vstd::prelude::*;

verus! {

/// How long a thread that is to end sleeps at a time, in milliseconds, while
/// it waits for its pending I/O.
pub const IO_WAIT_MILLIS: DWORD = 10_000;

/// What a worker thread has to do next.
#[derive(Copy, Clone, Debug, PartialEq, Eq, Structural)]
pub enum ThreadStep {
    /// Yield to the scheduler, which finds the event in the thread's slot.
    Yield,
    /// Call `main` of this job.
    RunJob(usize),
    /// Ask whether the thread has I/O pending.
    QueryIoPending,
    /// Sleep this long, and wake when an I/O completion routine has run.
    Sleep(DWORD),
    /// End with this exit code.
    Return(DWORD),
}

/// What has happened to a worker thread.
#[derive(Copy, Clone, Debug, PartialEq, Eq, Structural)]
pub enum ThreadInput {
    /// The thread was created.
    Started,
    /// The scheduler resumed the thread after a yield.
    Resumed,
    /// `main` of this job returned.
    JobReturned(usize),
    /// Whether the thread has I/O pending.
    IoPending(bool),
    /// The sleep ended and returned this.
    Slept(DWORD),
}

/// Whether the input can happen to a thread whose slot holds `event`: a thread
/// starts with an empty slot, the job that returns is the one that it was
/// given, and only a thread that was told to end waits for its I/O.
pub open spec fn thread_accepts(event: ThreadEvent, input: ThreadInput) -> bool {
    match input {
        ThreadInput::Started => event is NoEvent,
        ThreadInput::Resumed => event.for_worker(),
        ThreadInput::JobReturned(job) => event == ThreadEvent::ThreadAssignedJob(job),
        ThreadInput::IoPending(_) => event is ThreadShutdown,
        ThreadInput::Slept(woken_by) => {
            &&& event is ThreadShutdown
            &&& woken_by == 0 || woken_by == WAIT_IO_COMPLETION
        },
    }
}

/// What a thread's slot holds and what the thread does after the input.
pub open spec fn thread_step(event: ThreadEvent, input: ThreadInput) -> (ThreadEvent, ThreadStep) {
    match input {
        ThreadInput::Started => (ThreadEvent::ThreadStartup, ThreadStep::Yield),
        ThreadInput::Resumed => match event {
            ThreadEvent::ThreadAssignedJob(job) => (event, ThreadStep::RunJob(job)),
            _ => (event, ThreadStep::QueryIoPending),
        },
        ThreadInput::JobReturned(job) => (ThreadEvent::ThreadCompleteJob(job), ThreadStep::Yield),
        ThreadInput::IoPending(pending) => if pending {
            (event, ThreadStep::Sleep(IO_WAIT_MILLIS))
        } else {
            (event, ThreadStep::Return(0))
        },
        ThreadInput::Slept(woken_by) => if woken_by == WAIT_IO_COMPLETION {
            (event, ThreadStep::QueryIoPending)
        } else {
            (event, ThreadStep::Return(0))
        },
    }
}

impl ThreadState {
    /// Writes the slot and has the thread yield.
    pub fn yield_event(&mut self, event: ThreadEvent) -> (step: ThreadStep)
        ensures
            final(self).event == event,
            step == ThreadStep::Yield,
    {
        self.set_event(event);
        ThreadStep::Yield
    }
}

/// Whether the input can happen to a thread in this state.
pub fn can_take(state: &ThreadState, input: ThreadInput) -> (can: bool)
    ensures
        can == thread_accepts(state.event, input),
{
    match input {
        ThreadInput::Started => state.event == ThreadEvent::NoEvent,
        ThreadInput::Resumed => matches!(
            state.event,
            ThreadEvent::ThreadAssignedJob(_) | ThreadEvent::ThreadShutdown
        ),
        ThreadInput::JobReturned(job) => state.event == ThreadEvent::ThreadAssignedJob(job),
        ThreadInput::IoPending(_) => state.event == ThreadEvent::ThreadShutdown,
        ThreadInput::Slept(woken_by) => state.event == ThreadEvent::ThreadShutdown && (woken_by == 0
            || woken_by == WAIT_IO_COMPLETION),
    }
}

/// Takes what has happened to a worker thread and says what it does next.
pub fn thread_main(state: &mut ThreadState, input: ThreadInput) -> (step: ThreadStep)
    requires
        thread_accepts(old(state).event, input),
    ensures
        (final(state).event, step) == thread_step(old(state).event, input),
{
    match input {
        ThreadInput::Started => state.yield_event(ThreadEvent::ThreadStartup),
        ThreadInput::Resumed => match state.get_event() {
            ThreadEvent::ThreadAssignedJob(job) => ThreadStep::RunJob(job),
            _ => ThreadStep::QueryIoPending,
        },
        ThreadInput::JobReturned(job) => state.yield_event(ThreadEvent::ThreadCompleteJob(job)),
        ThreadInput::IoPending(pending) => if pending {
            ThreadStep::Sleep(IO_WAIT_MILLIS)
        } else {
            ThreadStep::Return(0)
        },
        ThreadInput::Slept(woken_by) => if woken_by == WAIT_IO_COMPLETION {
            ThreadStep::QueryIoPending
        } else {
            ThreadStep::Return(0)
        },
    }
}

/// Reads the answer to the question whether the thread has I/O pending:
/// `returned` is what the call returned, `io_pending_flag` what it wrote.
pub fn current_thread_has_io_pending(returned: BOOL, io_pending_flag: BOOL) -> (pending: Result<
    bool,
    io::Error,
>)
    requires
        returned == FALSE || returned == TRUE,
        returned == TRUE ==> io_pending_flag == FALSE || io_pending_flag == TRUE,
    ensures
        returned == TRUE ==> pending == Ok::<bool, io::Error>(io_pending_flag == TRUE),
        returned == FALSE ==> (pending matches Err(e) && crate::win_result::is_last_error(e)),
{
    match returned.result() {
        Ok(()) => Ok(io_pending_flag == TRUE),
        Err(error) => Err(error),
    }
}

/// The life of a worker thread. It reports that it is there and yields. With a
/// job in its slot it runs that job, and when the job has returned it reports
/// that job and yields. Told to end, it asks for its I/O. While that is pending
/// it sleeps ten seconds at a time, and asks again if an I/O ended the sleep;
/// otherwise it returns zero. Its slot changes only when it reports.
pub proof fn law_life_of_a_worker(event: ThreadEvent, job: usize)
    ensures
        thread_step(event, ThreadInput::Started) == (
            ThreadEvent::ThreadStartup,
            ThreadStep::Yield,
        ),
        event == ThreadEvent::ThreadAssignedJob(job) ==> thread_step(event, ThreadInput::Resumed)
            == (event, ThreadStep::RunJob(job)),
        event == ThreadEvent::ThreadShutdown ==> thread_step(event, ThreadInput::Resumed) == (
            event,
            ThreadStep::QueryIoPending,
        ),
        thread_step(event, ThreadInput::JobReturned(job)) == (
            ThreadEvent::ThreadCompleteJob(job),
            ThreadStep::Yield,
        ),
        thread_step(event, ThreadInput::IoPending(true)) == (event, ThreadStep::Sleep(10_000)),
        thread_step(event, ThreadInput::IoPending(false)) == (event, ThreadStep::Return(0)),
        thread_step(event, ThreadInput::Slept(0xC0)) == (event, ThreadStep::QueryIoPending),
        thread_step(event, ThreadInput::Slept(0)) == (event, ThreadStep::Return(0)),
{
}

/// When what can happen to a worker thread: it starts with an empty slot, is
/// resumed with a job or the order to end in it, only the job in the slot
/// returns, and only a thread that is to end waits for its I/O, in a sleep that
/// ends by itself or by an I/O.
pub proof fn law_worker_takes_what_its_slot_allows(
    event: ThreadEvent,
    job: usize,
    pending: bool,
    woken_by: DWORD,
)
    ensures
        thread_accepts(event, ThreadInput::Started) <==> event == ThreadEvent::NoEvent,
        thread_accepts(event, ThreadInput::Resumed) <==> event == ThreadEvent::ThreadShutdown
            || event matches ThreadEvent::ThreadAssignedJob(_),
        thread_accepts(event, ThreadInput::JobReturned(job)) <==> event
            == ThreadEvent::ThreadAssignedJob(job),
        thread_accepts(event, ThreadInput::IoPending(pending)) <==> event
            == ThreadEvent::ThreadShutdown,
        thread_accepts(event, ThreadInput::Slept(woken_by)) <==> event
            == ThreadEvent::ThreadShutdown && (woken_by == 0 || woken_by == 0xC0),
{
}

} // verus!
