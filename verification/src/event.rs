//! The events that the scheduler and its worker threads pass to each other.
//!
//! An event travels through a slot: a place in memory that holds one event
//! and that both sides know by its address. A worker writes its slot and
//! yields; the scheduler writes the slot of a worker before it resumes it.
use vstd::prelude::*;

verus! {

/// What a thread tells the scheduler, or the scheduler a thread. A job is
/// named by the address under which the runtime finds it.
#[derive(Copy, Clone, Debug, PartialEq, Eq, Structural)]
pub enum ThreadEvent {
    /// Nothing has been passed yet.
    NoEvent,
    /// A thread asks the scheduler to delegate a job.
    ScheduleJob(usize),
    /// The scheduler reports that a delegated job is complete.
    CompleteJob,
    /// A thread tells the scheduler that it is available.
    ThreadStartup,
    /// The scheduler tells a thread to exit.
    ThreadShutdown,
    /// The scheduler assigns a job to a thread.
    ThreadAssignedJob(usize),
    /// A thread tells the scheduler that its job is complete.
    ThreadCompleteJob(usize),
}

impl ThreadEvent {
    /// Whether a thread may yield to the scheduler with this event.
    pub open spec fn for_scheduler(self) -> bool {
        self is ThreadStartup || self is ScheduleJob || self is ThreadCompleteJob
    }

    /// Whether a worker thread may be resumed with this event.
    pub open spec fn for_worker(self) -> bool {
        self is ThreadAssignedJob || self is ThreadShutdown
    }
}

impl Default for ThreadEvent {
    fn default() -> (event: Self)
        ensures
            event == ThreadEvent::NoEvent,
    {
        ThreadEvent::NoEvent
    }
}

/// What a worker thread keeps for itself: the slot of its events.
#[derive(Debug)]
pub struct ThreadState {
    pub event: ThreadEvent,
}

impl ThreadState {
    /// The state of a thread that has not exchanged an event yet.
    pub fn new() -> (state: Self)
        ensures
            state.event == ThreadEvent::NoEvent,
    {
        ThreadState { event: Default::default() }
    }

    /// Writes the slot.
    pub fn set_event(&mut self, event: ThreadEvent)
        ensures
            final(self).event == event,
    {
        self.event = event;
    }

    /// Reads the slot.
    pub fn get_event(&self) -> (event: ThreadEvent)
        ensures
            event == self.event,
    {
        self.event
    }
}

/// Which events go which way: a thread tells the scheduler that it is there,
/// that a job is to be done and that its job is done; the scheduler tells a
/// worker thread its job and its end.
pub proof fn law_events_have_a_direction(event: ThreadEvent)
    ensures
        event.for_worker() <==> event matches ThreadEvent::ThreadAssignedJob(_) || event
            == ThreadEvent::ThreadShutdown,
        event.for_scheduler() <==> event == ThreadEvent::ThreadStartup
            || event matches ThreadEvent::ScheduleJob(_)
            || event matches ThreadEvent::ThreadCompleteJob(_),
        !(event.for_worker() && event.for_scheduler()),
{
}

} // verus!
