//! The books of the scheduler against its threads: who is starting, working
//! and leaving, and what follows for the scheduler when every thread keeps to
//! its part.
use crate::cause::{SchedulerEntryCause, ThreadReadyCause};
use crate::event::ThreadEvent;
use crate::scheduler::{Execution, Resumption, SchedulerInput, SchedulerModel, SchedulerStep};
use vstd::prelude::*;

verus! {

/// The threads that are not idle, by what they are doing. The idle ones
/// stand with the scheduler.
#[verifier::ext_equal]
pub struct Crew {
    /// Created, and not heard of since.
    pub starting: Set<usize>,
    /// Given a job, and not through with it.
    pub working: Map<usize, usize>,
    /// Told to end, and not deleted yet.
    pub leaving: Set<usize>,
    /// The slot in which each thread that has reported looks for its events.
    pub slots: Map<usize, usize>,
}

impl Crew {
    /// There are no threads.
    pub open spec fn empty() -> Self {
        Crew {
            starting: Set::empty(),
            working: Map::empty(),
            leaving: Set::empty(),
            slots: Map::empty(),
        }
    }

    /// Whether no thread is starting, working or leaving.
    pub open spec fn is_gone(self) -> bool {
        &&& self.starting == Set::<usize>::empty()
        &&& self.working == Map::<usize, usize>::empty()
        &&& self.leaving == Set::<usize>::empty()
    }

    /// Whether the thread is one of these.
    pub open spec fn has(self, thread: usize) -> bool {
        ||| self.starting.contains(thread)
        ||| self.working.dom().contains(thread)
        ||| self.leaving.contains(thread)
    }

    /// Whether the job is queued or some thread works on it.
    pub open spec fn outstanding(self, s: SchedulerModel, job: usize) -> bool {
        s.queued_jobs.contains(job) || self.working.contains_value(job)
    }

    /// Whether the scheduler's queues and counters agree with the threads:
    /// each thread has one part and each outstanding job one place, and the
    /// counters count them.
    pub open spec fn agrees(self, s: SchedulerModel) -> bool {
        &&& self.starting.finite()
        &&& self.working.dom().finite()
        &&& self.leaving.finite()
        // Each thread has one part.
        &&& forall|t: usize| #[trigger]
            self.starting.contains(t) ==> !self.working.dom().contains(t)
                && !self.leaving.contains(t)
        &&& forall|t: usize| #[trigger]
            self.working.dom().contains(t) ==> !self.leaving.contains(t)
        &&& forall|i: int|
            0 <= i < s.idle_threads.len() ==> !self.has(
                (#[trigger] s.idle_threads[i]).ums_thread_context,
            )
        &&& forall|i: int, j: int|
            0 <= i < j < s.idle_threads.len() ==> (#[trigger] s.idle_threads[i]).ums_thread_context
                != (#[trigger] s.idle_threads[j]).ums_thread_context
        // Each idle thread is known by its slot.
        &&& forall|i: int|
            0 <= i < s.idle_threads.len() ==> self.slots.contains_pair(
                (#[trigger] s.idle_threads[i]).ums_thread_context,
                s.idle_threads[i].event_slot,
            )
        // So is each thread that works or leaves, and no two share a slot.
        &&& forall|t: usize| #[trigger]
            self.working.dom().contains(t) ==> self.slots.dom().contains(t)
        &&& forall|t: usize| #[trigger]
            self.leaving.contains(t) ==> self.slots.dom().contains(t)
        &&& forall|t: usize, u: usize|
            #![trigger self.slots[t], self.slots[u]]
            self.slots.dom().contains(t) && self.slots.dom().contains(u) && t != u
                ==> self.slots[t] != self.slots[u]
        // Each outstanding job has one place.
        &&& s.queued_jobs.no_duplicates()
        &&& forall|t: usize| #[trigger]
            self.working.dom().contains(t) ==> !s.queued_jobs.contains(self.working[t])
        &&& forall|t: usize, u: usize|
            #![trigger self.working[t], self.working[u]]
            self.working.dom().contains(t) && self.working.dom().contains(u) && t != u
                ==> self.working[t] != self.working[u]
        // The counters count them.
        &&& s.thread_count_starting == self.starting.len()
        &&& s.thread_count_total == self.starting.len() + s.idle_threads.len()
            + self.working.dom().len() + self.leaving.len()
        &&& s.total_job_count == s.queued_jobs.len() + self.working.dom().len()
    }

    /// Whether the input can come when every thread keeps to its part. `thread`
    /// is the one that was created or whose context was deleted, if one was.
    /// A thread that starts brings a slot of its own and reports in that one
    /// from then on. What is delegated, and what a job's method reports to the
    /// thread that delegated it, goes through yet another slot; a job's method
    /// may report nothing but a completion.
    pub open spec fn permits(self, s: SchedulerModel, input: SchedulerInput, thread: usize) -> bool {
        match input {
            SchedulerInput::Entered { cause, slot_event } => match cause {
                SchedulerEntryCause::Startup { .. } => true,
                SchedulerEntryCause::ThreadBlocked { .. } => true,
                SchedulerEntryCause::ThreadReady { ums_thread_context, cause } => match cause {
                    ThreadReadyCause::Yield { param } => match slot_event {
                        ThreadEvent::ThreadStartup => {
                            &&& self.starting.contains(ums_thread_context)
                            &&& !self.slots.contains_value(param)
                        },
                        ThreadEvent::ScheduleJob(job) => {
                            &&& !self.outstanding(s, job)
                            &&& !self.slots.contains_value(param)
                        },
                        ThreadEvent::ThreadCompleteJob(job) => {
                            &&& self.working.contains_pair(ums_thread_context, job)
                            &&& self.slots.contains_pair(ums_thread_context, param)
                        },
                        _ => false,
                    },
                    ThreadReadyCause::Terminated => self.leaving.contains(ums_thread_context),
                    ThreadReadyCause::ExecuteFailed { .. } => false,
                    ThreadReadyCause::Busy | ThreadReadyCause::Suspended => true,
                },
            },
            SchedulerInput::HookReturned(next_execution) => {
                next_execution matches Some(e) ==> {
                    &&& e.event == ThreadEvent::CompleteJob
                    &&& !self.slots.contains_value(e.event_slot)
                }
            },
            SchedulerInput::ContextDeleted => self.leaving.contains(thread),
            SchedulerInput::ThreadCreated { missing } => {
                &&& missing > 0
                &&& !self.has(thread)
                &&& forall|i: int|
                    0 <= i < s.idle_threads.len() ==> (
                    #[trigger] s.idle_threads[i]).ums_thread_context != thread
            },
            SchedulerInput::ThreadsReady(_) => true,
        }
    }

    /// The threads once the scheduler has noted the input.
    pub open spec fn noted(self, input: SchedulerInput, thread: usize) -> Self {
        match input {
            SchedulerInput::Entered {
                cause: SchedulerEntryCause::ThreadReady {
                    ums_thread_context,
                    cause: ThreadReadyCause::Yield { param },
                },
                slot_event,
            } => match slot_event {
                ThreadEvent::ThreadStartup => Crew {
                    starting: self.starting.remove(ums_thread_context),
                    slots: self.slots.insert(ums_thread_context, param),
                    ..self
                },
                ThreadEvent::ThreadCompleteJob(_) => Crew {
                    working: self.working.remove(ums_thread_context),
                    ..self
                },
                _ => self,
            },
            SchedulerInput::ContextDeleted => Crew {
                leaving: self.leaving.remove(thread),
                slots: self.slots.remove(thread),
                ..self
            },
            SchedulerInput::ThreadCreated { .. } => Crew {
                starting: self.starting.insert(thread),
                ..self
            },
            _ => self,
        }
    }

    /// The threads once the scheduler's step has been carried out: one that
    /// is resumed with a job works, one that is resumed to shut down leaves.
    pub open spec fn dispatched(self, step: SchedulerStep) -> Self {
        match step {
            SchedulerStep::Resume(Resumption { write: Some(write), ums_thread_context }) => {
                match write.event {
                    ThreadEvent::ThreadAssignedJob(job) => Crew {
                        working: self.working.insert(ums_thread_context, job),
                        ..self
                    },
                    ThreadEvent::ThreadShutdown => Crew {
                        leaving: self.leaving.insert(ums_thread_context),
                        ..self
                    },
                    _ => self,
                }
            },
            _ => self,
        }
    }

    /// The threads after a step of the scheduler.
    pub open spec fn after(self, s: SchedulerModel, input: SchedulerInput, thread: usize) -> Self {
        self.noted(input, thread).dispatched(s.step(input).1)
    }
}

/// Whether one more job and one more thread can be counted.
pub open spec fn within_limits(s: SchedulerModel) -> bool {
    s.total_job_count < usize::MAX && s.thread_count_total < usize::MAX
}

/// What the scheduler is once it has noted the input, before it decides.
pub open spec fn noted_model(s: SchedulerModel, input: SchedulerInput) -> SchedulerModel {
    match input {
        SchedulerInput::Entered { cause, slot_event } => s.noted(cause, slot_event),
        SchedulerInput::HookReturned(_) => s,
        SchedulerInput::ContextDeleted => s.without_thread(),
        SchedulerInput::ThreadCreated { .. } => s.with_starting(),
        SchedulerInput::ThreadsReady(threads) => s.with_runnable(threads@),
    }
}

/// The books agree once an input has been noted.
pub(crate) proof fn lemma_noted_agrees(s: SchedulerModel, crew: Crew, input: SchedulerInput, thread: usize)
    requires
        crew.agrees(s),
        crew.permits(s, input, thread),
    ensures
        crew.noted(input, thread).agrees(noted_model(s, input)),
{
    let c2 = crew.noted(input, thread);
    let s2 = noted_model(s, input);
    match input {
        SchedulerInput::Entered { cause, slot_event } => match cause {
            SchedulerEntryCause::ThreadReady { ums_thread_context, cause } => match cause {
                ThreadReadyCause::Yield { param } => match slot_event {
                    ThreadEvent::ScheduleJob(job) => {
                        assert(s2.queued_jobs.no_duplicates());
                        assert forall|t: usize| #[trigger]
                            c2.working.dom().contains(t) implies !s2.queued_jobs.contains(
                            c2.working[t],
                        ) by {
                            assert(crew.working.contains_value(crew.working[t]));
                        }
                    },
                    ThreadEvent::ThreadCompleteJob(job) => {
                        assert(c2.working.dom() =~= crew.working.dom().remove(ums_thread_context));
                    },
                    _ => {},
                },
                _ => {},
            },
            _ => {},
        },
        _ => {},
    }
}

/// The books agree after a decision.
proof fn lemma_decided_agrees(s: SchedulerModel, crew: Crew, next_execution: Option<Execution>)
    requires
        crew.agrees(s),
        next_execution matches Some(e) ==> e.event == ThreadEvent::CompleteJob,
    ensures
        crew.dispatched(s.decided(next_execution).1).agrees(s.decided(next_execution).0),
{
    let (s2, step) = s.decided(next_execution);
    let c2 = crew.dispatched(step);
    if next_execution is None && s.idle_threads.len() > 0 {
        let thread = s.idle_threads.last().ums_thread_context;
        assert(!crew.has(thread));
        if s.queued_jobs.len() > 0 {
            let job = s.queued_jobs[0];
            assert(s.queued_jobs.contains(job));
            assert(c2.working.dom() =~= crew.working.dom().insert(thread));
            assert(s2.queued_jobs.no_duplicates());
            assert forall|t: usize| #[trigger] c2.working.dom().contains(t) implies
                !s2.queued_jobs.contains(c2.working[t]) by {
                if s2.queued_jobs.contains(c2.working[t]) {
                    let i = s2.queued_jobs.index_of(c2.working[t]);
                    assert(s.queued_jobs[i + 1] == c2.working[t]);
                }
            }
        }
    }
}

/// A scheduler that begins has books that agree with there being no threads.
pub proof fn law_fresh_books_agree(ums_completion_list: usize, queued_jobs: Seq<usize>)
    requires
        queued_jobs.no_duplicates(),
    ensures
        Crew::empty().agrees(SchedulerModel::fresh(ums_completion_list, queued_jobs)),
{
}

/// While every thread keeps to its part, the scheduler can take each input,
/// and its books go on to agree: it never counts below zero, never hands out
/// a job twice, never gives a thread that is not idle a job, and never finds
/// a thread starting when it has none.
pub proof fn law_books_agree(s: SchedulerModel, crew: Crew, input: SchedulerInput, thread: usize)
    requires
        crew.agrees(s),
        crew.permits(s, input, thread),
        within_limits(s),
    ensures
        s.accepts(input),
        crew.after(s, input, thread).agrees(s.step(input).0),
{
    lemma_noted_agrees(s, crew, input, thread);
    let noted = noted_model(s, input);
    let noted_crew = crew.noted(input, thread);
    match input {
        SchedulerInput::Entered { cause, slot_event } => {
            if s.errand(cause, slot_event) is None {
                lemma_decided_agrees(noted, noted_crew, None);
            }
            assert(s.admits(cause, slot_event)) by {
                if let SchedulerEntryCause::ThreadReady { ums_thread_context, .. } = cause {
                    if crew.starting.contains(ums_thread_context) {
                        assert(crew.starting.len() > 0);
                    }
                    if crew.working.dom().contains(ums_thread_context) {
                        assert(crew.working.dom().len() > 0);
                    }
                }
            }
        },
        SchedulerInput::HookReturned(next_execution) => {
            lemma_decided_agrees(noted, noted_crew, next_execution);
        },
        SchedulerInput::ContextDeleted => {
            assert(crew.leaving.len() > 0);
            lemma_decided_agrees(noted, noted_crew, None);
        },
        _ => {},
    }
}

/// The scheduler and its threads after these inputs, one after the other.
/// With each input stands the thread that was created or deleted, if any.
pub open spec fn after_run(s: SchedulerModel, crew: Crew, run: Seq<(SchedulerInput, usize)>) -> (
    SchedulerModel,
    Crew,
)
    decreases run.len(),
{
    if run.len() == 0 {
        (s, crew)
    } else {
        let (t, c) = after_run(s, crew, run.drop_last());
        (t.step(run.last().0).0, c.after(t, run.last().0, run.last().1))
    }
}

/// Whether every thread keeps to its part in the whole run.
pub open spec fn is_permitted_run(
    s: SchedulerModel,
    crew: Crew,
    run: Seq<(SchedulerInput, usize)>,
) -> bool
    decreases run.len(),
{
    run.len() > 0 ==> {
        let (t, c) = after_run(s, crew, run.drop_last());
        &&& is_permitted_run(s, crew, run.drop_last())
        &&& c.permits(t, run.last().0, run.last().1)
        &&& within_limits(t)
    }
}

/// The books go on to agree through a permitted run.
pub(crate) proof fn lemma_run_agrees(
    s: SchedulerModel,
    crew: Crew,
    run: Seq<(SchedulerInput, usize)>,
)
    requires
        crew.agrees(s),
        is_permitted_run(s, crew, run),
    ensures
        after_run(s, crew, run).1.agrees(after_run(s, crew, run).0),
    decreases run.len(),
{
    if run.len() > 0 {
        lemma_run_agrees(s, crew, run.drop_last());
        let (t, c) = after_run(s, crew, run.drop_last());
        law_books_agree(t, c, run.last().0, run.last().1);
    }
}

/// From its start on, however long the scheduler runs, its books agree with
/// its threads as long as these keep to their part, and it can take each
/// further input that they may cause.
pub proof fn law_books_agree_for_ever(
    ums_completion_list: usize,
    queued_jobs: Seq<usize>,
    run: Seq<(SchedulerInput, usize)>,
    input: SchedulerInput,
    thread: usize,
)
    requires
        queued_jobs.no_duplicates(),
        is_permitted_run(
            SchedulerModel::fresh(ums_completion_list, queued_jobs),
            Crew::empty(),
            run,
        ),
    ensures
        ({
            let (t, c) = after_run(
                SchedulerModel::fresh(ums_completion_list, queued_jobs),
                Crew::empty(),
                run,
            );
            &&& c.agrees(t)
            &&& c.permits(t, input, thread) && within_limits(t) ==> t.accepts(input)
        }),
{
    let fresh = SchedulerModel::fresh(ums_completion_list, queued_jobs);
    let (t, c) = after_run(fresh, Crew::empty(), run);
    law_fresh_books_agree(ums_completion_list, queued_jobs);
    lemma_run_agrees(fresh, Crew::empty(), run);
    if c.permits(t, input, thread) && within_limits(t) {
        law_books_agree(t, c, input, thread);
    }
}

/// The scheduler leaves only when every job is complete and every thread is
/// gone.
pub proof fn law_exit_leaves_nothing(
    s: SchedulerModel,
    crew: Crew,
    input: SchedulerInput,
    thread: usize,
)
    requires
        crew.agrees(s),
        crew.permits(s, input, thread),
        within_limits(s),
        s.step(input).1 is Exit,
    ensures
        crew.after(s, input, thread).is_gone(),
        s.step(input).0.queued_jobs.len() == 0,
        s.step(input).0.idle_threads.len() == 0,
{
    law_books_agree(s, crew, input, thread);
    let after = crew.after(s, input, thread);
    assert(after.starting =~= Set::empty());
    assert(after.leaving =~= Set::empty());
    assert(after.working.dom() =~= Set::empty());
    assert(after.working =~= Map::empty());
}

/// A job or a shutdown is written into the slot of the very thread that is
/// resumed for it and of no other, and that thread is idle until then.
pub proof fn law_events_reach_their_thread(
    s: SchedulerModel,
    crew: Crew,
    input: SchedulerInput,
    thread: usize,
)
    requires
        crew.agrees(s),
        crew.permits(s, input, thread),
    ensures
        s.step(input).1 matches SchedulerStep::Resume(
            Resumption { write: Some(write), ums_thread_context },
        ) ==> write.event != ThreadEvent::CompleteJob ==> {
            let noted = crew.noted(input, thread);
            &&& noted.slots.contains_pair(ums_thread_context, write.event_slot)
            &&& forall|u: usize| #[trigger]
                noted.slots.dom().contains(u) && u != ums_thread_context ==> noted.slots[u]
                    != write.event_slot
            &&& !noted.has(ums_thread_context)
        },
{
    lemma_noted_agrees(s, crew, input, thread);
    let noted = noted_model(s, input);
    if noted.idle_threads.len() > 0 {
        assert(noted.idle_threads.last() == noted.idle_threads[noted.idle_threads.len() - 1]);
    }
}

/// When a step has the scheduler wait, some thread is starting, working or
/// leaving. If it waits on because no thread appeared, that holds as long as
/// there was such a thread before.
pub proof fn law_wait_has_someone_to_wait_for(
    s: SchedulerModel,
    crew: Crew,
    input: SchedulerInput,
    thread: usize,
)
    requires
        crew.agrees(s),
        crew.permits(s, input, thread),
        within_limits(s),
        s.step(input).1 is WaitForThreads,
        input is ThreadsReady ==> exists|t: usize| crew.has(t),
    ensures
        exists|t: usize| crew.after(s, input, thread).has(t),
{
    law_books_agree(s, crew, input, thread);
    let after = crew.after(s, input, thread);
    if input is ThreadsReady {
        assert(after.has(choose|t: usize| crew.has(t)));
    } else if after.starting.len() > 0 {
        assert(after.has(after.starting.choose()));
    } else if after.working.dom().len() > 0 {
        assert(after.has(after.working.dom().choose()));
    } else {
        assert(after.leaving.len() > 0);
        assert(after.has(after.leaving.choose()));
    }
}

} // verus!
