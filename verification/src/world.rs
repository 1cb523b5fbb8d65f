//! The scheduler together with the worker threads and the jobs that it runs:
//! each thread follows the library's own `thread_main`, each job answers as
//! the library's jobs do, and the slots are memory that they share. What is
//! left open is what the system and the delegated functions decide: when a
//! thread goes on, stops or returns from its job, and which addresses it gets.
use crate::cause::{SchedulerEntryCause, ThreadReadyCause};
use crate::crew::Crew;
use crate::event::ThreadEvent;
use crate::platform::{TRUE, WAIT_IO_COMPLETION};
use crate::scheduler::{
    Execution, HookCall, Resumption, SchedulerInput, SchedulerModel, SchedulerStep, SlotWrite,
};
use crate::setup::{Resource, SchedulerSetup, SchedulerSetupInput, SchedulerSetupStep};
use crate::worker::{ThreadInput, ThreadStep};
use vstd::prelude::*;

verus! {

/// A worker thread.
pub struct Worker {
    /// Where its state keeps its event.
    pub slot: usize,
    /// What `thread_main` had it do last; nothing before it has run.
    pub doing: Option<ThreadStep>,
}

/// The scheduler, its threads and what they share.
pub struct World {
    /// The job that the scheduler began with. It is there all the time.
    pub first_job: usize,
    pub scheduler: SchedulerModel,
    /// The step that the scheduler took last.
    pub step: Option<SchedulerStep>,
    /// The threads, by their contexts, from creation to deletion.
    pub workers: Map<usize, Worker>,
    /// What the slots hold.
    pub slots: Map<usize, ThreadEvent>,
    /// The jobs that were delegated and have not been reported back, each
    /// with the execution that reports it.
    pub delegations: Map<usize, Execution>,
}

/// What can happen.
pub enum Happening {
    /// A thread goes on by itself.
    Goes { thread: usize, with: ThreadInput },
    /// The scheduler is told something. `thread` is the one that was created,
    /// with its slot, or whose context was deleted.
    Told { input: SchedulerInput, thread: usize, slot: usize },
}

impl World {
    /// The scheduler has one job and no threads, and was not entered yet.
    pub open spec fn fresh(ums_completion_list: usize, first_job: usize) -> Self {
        World {
            first_job,
            scheduler: SchedulerModel::fresh(ums_completion_list, seq![first_job]),
            step: None,
            workers: Map::empty(),
            slots: Map::empty(),
            delegations: Map::empty(),
        }
    }

    /// Whether the slot belongs to no thread and to no delegation.
    pub open spec fn is_free(self, slot: usize) -> bool {
        &&& forall|t: usize| #[trigger]
            self.workers.dom().contains(t) ==> self.workers[t].slot != slot
        &&& forall|job: usize| #[trigger]
            self.delegations.dom().contains(job) ==> self.delegations[job].event_slot != slot
    }

    /// Whether the job is there: the first one, or one that was delegated and
    /// has not been reported back.
    pub open spec fn is_there(self, job: usize) -> bool {
        job == self.first_job || self.delegations.dom().contains(job)
    }

    /// Whether the scheduler waits, creates a thread, leaves, or lets a thread
    /// go on with what it was doing.
    pub open spec fn passes_jobs_by(self) -> bool {
        match self.step {
            Some(SchedulerStep::WaitForThreads { .. })
            | Some(SchedulerStep::CreateThread { .. })
            | Some(SchedulerStep::Exit) => true,
            Some(SchedulerStep::Resume(r)) => r.write is None,
            _ => false,
        }
    }

    /// The input with which a thread that is to yield goes on before it does:
    /// it starts, or its job returns.
    pub open spec fn before_yield(self, thread: usize) -> Option<ThreadInput> {
        match self.workers[thread].doing {
            None => Some(ThreadInput::Started),
            Some(ThreadStep::RunJob(job)) => Some(ThreadInput::JobReturned(job)),
            _ => None,
        }
    }

    /// Whether the thread yields with this event in this slot because
    /// `thread_main` has it do so.
    pub open spec fn reports(self, thread: usize, slot: usize, event: ThreadEvent) -> bool {
        &&& self.workers.dom().contains(thread)
        &&& slot == self.workers[thread].slot
        &&& self.before_yield(thread) matches Some(input)
        &&& event == crate::worker::thread_step(self.slots[slot], input).0
    }

    /// Whether the thread yields with this event in this slot because the
    /// function of its job delegates another job. That is one which is not
    /// there yet, and its slot is one of its own.
    pub open spec fn delegates(self, thread: usize, slot: usize, event: ThreadEvent) -> bool {
        &&& self.workers.dom().contains(thread)
        &&& self.workers[thread].doing matches Some(ThreadStep::RunJob(_))
        &&& event matches ThreadEvent::ScheduleJob(job)
        &&& job != self.first_job
        &&& !self.delegations.dom().contains(job)
        &&& self.is_free(slot)
    }

    /// What the method of a job answers: a delegated one has its completion
    /// reported, and nothing else is asked for.
    pub open spec fn answer(self, call: HookCall) -> Option<Execution> {
        match call {
            HookCall::OnComplete { job } => if self.delegations.dom().contains(job) {
                Some(self.delegations[job])
            } else {
                None
            },
            _ => None,
        }
    }

    /// Whether the scheduler can be told this: that the system reports is
    /// true of the threads, and the rest is what comes of the step before.
    pub open spec fn may_be_told(self, input: SchedulerInput, thread: usize, slot: usize) -> bool {
        &&& crate::crew::within_limits(self.scheduler)
        &&& match self.step {
            None => input matches SchedulerInput::Entered {
                cause: SchedulerEntryCause::Startup { .. },
                ..
            },
            Some(step) => crate::run::answers(step, input, thread),
        }
        &&& match input {
            SchedulerInput::Entered { cause, slot_event } => match cause {
                SchedulerEntryCause::ThreadReady { ums_thread_context, cause } => match cause {
                    ThreadReadyCause::Yield { param } => {
                        ||| self.reports(ums_thread_context, param, slot_event)
                        ||| self.delegates(ums_thread_context, param, slot_event)
                    },
                    ThreadReadyCause::Terminated => {
                        &&& self.workers.dom().contains(ums_thread_context)
                        &&& self.workers[ums_thread_context].doing matches Some(
                            ThreadStep::Return(_),
                        )
                    },
                    // The program does not go on after this one.
                    ThreadReadyCause::ExecuteFailed { .. } => false,
                    ThreadReadyCause::Busy | ThreadReadyCause::Suspended => true,
                },
                _ => true,
            },
            SchedulerInput::HookReturned(next_execution) => {
                &&& self.step matches Some(SchedulerStep::CallHook(call))
                &&& next_execution == self.answer(call)
            },
            SchedulerInput::ContextDeleted => true,
            SchedulerInput::ThreadCreated { .. } => {
                &&& !self.workers.dom().contains(thread)
                &&& self.is_free(slot)
            },
            SchedulerInput::ThreadsReady(_) => true,
        }
    }

    /// Whether the thread can go on like this: it comes out of what it did
    /// last, and out of a yield only once the scheduler gave it something.
    pub open spec fn may_go(self, thread: usize, input: ThreadInput) -> bool {
        &&& self.workers.dom().contains(thread)
        &&& self.workers[thread].doing matches Some(step)
        &&& match input {
            ThreadInput::Resumed => {
                &&& step is Yield
                &&& self.slots[self.workers[thread].slot].for_worker()
            },
            ThreadInput::IoPending(_) => step is QueryIoPending,
            ThreadInput::Slept(woken_by) => {
                &&& step is Sleep
                &&& woken_by == 0 || woken_by == WAIT_IO_COMPLETION
            },
            _ => false,
        }
    }

    /// Whether this can happen.
    pub open spec fn may(self, happening: Happening) -> bool {
        match happening {
            Happening::Goes { thread, with } => self.may_go(thread, with),
            Happening::Told { input, thread, slot } => self.may_be_told(input, thread, slot),
        }
    }

    /// The threads once the scheduler has been told this.
    pub open spec fn workers_after(
        self,
        input: SchedulerInput,
        thread: usize,
        slot: usize,
    ) -> Map<usize, Worker> {
        match input {
            SchedulerInput::Entered {
                cause: SchedulerEntryCause::ThreadReady {
                    ums_thread_context,
                    cause: ThreadReadyCause::Yield { .. },
                },
                slot_event,
            } => if slot_event is ScheduleJob {
                self.workers
            } else {
                self.workers.insert(
                    ums_thread_context,
                    Worker {
                        doing: Some(ThreadStep::Yield),
                        ..self.workers[ums_thread_context]
                    },
                )
            },
            SchedulerInput::ThreadCreated { .. } => self.workers.insert(
                thread,
                Worker { slot, doing: None },
            ),
            SchedulerInput::ContextDeleted => self.workers.remove(thread),
            _ => self.workers,
        }
    }

    /// The delegated jobs once the scheduler has been told this.
    pub open spec fn delegations_after(self, input: SchedulerInput) -> Map<usize, Execution> {
        match input {
            SchedulerInput::Entered {
                cause: SchedulerEntryCause::ThreadReady {
                    ums_thread_context,
                    cause: ThreadReadyCause::Yield { param },
                },
                slot_event: ThreadEvent::ScheduleJob(job),
            } => self.delegations.insert(
                job,
                Execution {
                    ums_thread_context,
                    event_slot: param,
                    event: ThreadEvent::CompleteJob,
                },
            ),
            SchedulerInput::HookReturned(_) => match self.step {
                Some(SchedulerStep::CallHook(HookCall::OnComplete { job })) => {
                    self.delegations.remove(job)
                },
                _ => self.delegations,
            },
            _ => self.delegations,
        }
    }

    /// What comes of it.
    pub open spec fn after(self, happening: Happening) -> Self {
        match happening {
            Happening::Goes { thread, with } => {
                let worker = self.workers[thread];
                let (event, step) = crate::worker::thread_step(self.slots[worker.slot], with);
                World {
                    workers: self.workers.insert(thread, Worker { doing: Some(step), ..worker }),
                    slots: self.slots.insert(worker.slot, event),
                    ..self
                }
            },
            Happening::Told { input, thread, slot } => {
                let (scheduler, step) = self.scheduler.step(input);
                let slots = if input is ThreadCreated {
                    self.slots.insert(slot, ThreadEvent::NoEvent)
                } else {
                    self.slots
                };
                World {
                    first_job: self.first_job,
                    scheduler,
                    step: Some(step),
                    workers: self.workers_after(input, thread, slot),
                    slots: crate::run::slots_after(slots, self.scheduler, input),
                    delegations: self.delegations_after(input),
                }
            },
        }
    }

    /// Whether each thread has the part in the crew that it plays, and what
    /// the others count on holds.
    spec fn in_step(self, crew: Crew) -> bool {
        &&& crew.agrees(self.scheduler)
        // What a thread does is its part.
        &&& forall|t: usize| #[trigger]
            self.workers.dom().contains(t) ==> {
                let worker = self.workers[t];
                let event = self.slots[worker.slot];
                match worker.doing {
                    None => crew.starting.contains(t) && event is NoEvent,
                    Some(ThreadStep::Yield) => {
                        &&& crew.slots.contains_pair(t, worker.slot)
                        &&& event matches ThreadEvent::ThreadAssignedJob(job)
                            ==> crew.working.contains_pair(t, job)
                        &&& event is ThreadShutdown ==> crew.leaving.contains(t)
                    },
                    Some(ThreadStep::RunJob(job)) => {
                        &&& crew.slots.contains_pair(t, worker.slot)
                        &&& event == ThreadEvent::ThreadAssignedJob(job)
                        &&& crew.working.contains_pair(t, job)
                    },
                    _ => {
                        &&& crew.slots.contains_pair(t, worker.slot)
                        &&& event is ThreadShutdown
                        &&& crew.leaving.contains(t)
                    },
                }
            }
        // The crew has no other threads.
        &&& forall|t: usize| #[trigger]
            crew.starting.contains(t) ==> self.workers.dom().contains(t)
        &&& forall|t: usize| #[trigger]
            crew.slots.dom().contains(t) ==> {
                &&& self.workers.dom().contains(t)
                &&& self.workers[t].slot == crew.slots[t]
                &&& self.workers[t].doing is Some
            }
        // Each slot has one use.
        &&& forall|t: usize, u: usize|
            #![trigger self.workers[t], self.workers[u]]
            self.workers.dom().contains(t) && self.workers.dom().contains(u) && t != u
                ==> self.workers[t].slot != self.workers[u].slot
        &&& forall|job: usize, t: usize|
            #![trigger self.delegations[job], self.workers[t]]
            self.delegations.dom().contains(job) && self.workers.dom().contains(t)
                ==> self.delegations[job].event_slot != self.workers[t].slot
        &&& forall|job: usize| #[trigger]
            self.delegations.dom().contains(job) ==> self.delegations[job].event
                == ThreadEvent::CompleteJob
        // A job that is outstanding is there.
        &&& forall|job: usize|
            crew.outstanding(self.scheduler, job) ==> job == self.first_job
                || #[trigger] self.delegations.dom().contains(job)
        // What the step before says of a thread or a job holds.
        &&& match self.step {
            Some(SchedulerStep::CallHook(HookCall::OnComplete { job })) => {
                &&& !crew.outstanding(self.scheduler, job)
                &&& self.is_there(job)
            },
            Some(SchedulerStep::CallHook(HookCall::OnBlocking { job, .. })) => {
                &&& self.is_there(job)
                &&& self.scheduler.last_execution matches Some(e)
                &&& e.event == ThreadEvent::ThreadAssignedJob(job)
                &&& crate::run::is_assigned(
                    self.scheduler,
                    crew,
                    self.slots,
                    e.ums_thread_context,
                    e.event_slot,
                    job,
                )
            },
            Some(
                SchedulerStep::CallHook(
                    HookCall::OnSchedule { job, invoker_ums_thread_context },
                ),
            ) => {
                &&& self.scheduler.queued_jobs.contains(job)
                &&& self.delegations.dom().contains(job)
                &&& self.delegations[job].ums_thread_context == invoker_ums_thread_context
            },
            Some(SchedulerStep::CreateThread { missing, .. }) => missing > 0,
            Some(SchedulerStep::DeleteContext { ums_thread_context }) => crew.leaving.contains(
                ums_thread_context,
            ),
            Some(
                SchedulerStep::Resume(
                    Resumption {
                        write: Some(
                            SlotWrite { event_slot, event: ThreadEvent::ThreadAssignedJob(job) },
                        ),
                        ums_thread_context,
                    },
                ),
            ) => crate::run::is_assigned(
                self.scheduler,
                crew,
                self.slots,
                ums_thread_context,
                event_slot,
                job,
            ),
            _ => true,
        }
        // What is remembered is what was carried out last.
        &&& match self.step {
            Some(SchedulerStep::Resume(r)) => match self.scheduler.last_execution {
                Some(e) => r == (Resumption {
                    write: Some(SlotWrite { event_slot: e.event_slot, event: e.event }),
                    ums_thread_context: e.ums_thread_context,
                }),
                None => r.write is None,
            },
            Some(SchedulerStep::CallHook(_)) | Some(SchedulerStep::DeleteContext { .. }) => true,
            _ => self.scheduler.last_execution is None,
        }
        // No job waits beside an idle thread.
        &&& self.passes_jobs_by() ==> self.scheduler.queued_jobs.len() == 0
            || self.scheduler.idle_threads.len() == 0
    }
}

/// The library's threads and jobs keep to their part.
proof fn lemma_permitted(w: World, crew: Crew, input: SchedulerInput, thread: usize, slot: usize)
    requires
        w.in_step(crew),
        w.may_be_told(input, thread, slot),
    ensures
        crew.permits(w.scheduler, input, thread),
{
    if let SchedulerInput::HookReturned(Some(e)) = input {
        assert(!crew.slots.contains_value(e.event_slot)) by {
            if crew.slots.contains_value(e.event_slot) {
                let t = choose|t: usize| #[trigger]
                    crew.slots.dom().contains(t) && crew.slots[t] == e.event_slot;
                assert(w.workers[t].slot == e.event_slot);
            }
        }
    }
}

/// A thread that goes on by itself stays in its part, and what it is told is
/// what `thread_main` can take.
proof fn lemma_goes(w: World, crew: Crew, thread: usize, with: ThreadInput)
    requires
        w.in_step(crew),
        w.may_go(thread, with),
    ensures
        w.after(Happening::Goes { thread, with }).in_step(crew),
        crate::worker::thread_accepts(w.slots[w.workers[thread].slot], with),
{
}

/// The threads stay in their parts when the scheduler is told something.
proof fn lemma_told(w: World, crew: Crew, input: SchedulerInput, thread: usize, slot: usize)
    requires
        w.in_step(crew),
        w.may_be_told(input, thread, slot),
    ensures
        w.after(Happening::Told { input, thread, slot }).in_step(
            crew.after(w.scheduler, input, thread),
        ),
{
    lemma_permitted(w, crew, input, thread, slot);
    crate::crew::lemma_noted_agrees(w.scheduler, crew, input, thread);
    crate::crew::law_books_agree(w.scheduler, crew, input, thread);
    // The job of which a method is called is one that was outstanding or that
    // has just been queued.
    match w.scheduler.step(input).1 {
        SchedulerStep::CallHook(HookCall::OnSchedule { job, .. }) => {
            let queued = w.scheduler.queued_jobs.push(job);
            assert(queued[queued.len() - 1] == job);
        },
        SchedulerStep::CallHook(HookCall::OnBlocking { job, .. })
        | SchedulerStep::CallHook(HookCall::OnComplete { job }) => {
            assert(crew.outstanding(w.scheduler, job));
            assert(w.is_there(job));
        },
        _ => {},
    }
}

/// The world after these happenings, one after the other.
pub open spec fn after_course(w: World, course: Seq<Happening>) -> World
    decreases course.len(),
{
    if course.len() == 0 {
        w
    } else {
        after_course(w, course.drop_last()).after(course.last())
    }
}

/// Whether all this can happen, one after the other.
pub open spec fn is_course(w: World, course: Seq<Happening>) -> bool
    decreases course.len(),
{
    course.len() > 0 ==> {
        &&& is_course(w, course.drop_last())
        &&& after_course(w, course.drop_last()).may(course.last())
    }
}

/// What the scheduler is told in the course, with the threads that were
/// created or deleted.
pub open spec fn told(course: Seq<Happening>) -> Seq<(SchedulerInput, usize)>
    decreases course.len(),
{
    if course.len() == 0 {
        seq![]
    } else {
        match course.last() {
            Happening::Told { input, thread, .. } => told(course.drop_last()).push((input, thread)),
            Happening::Goes { .. } => told(course.drop_last()),
        }
    }
}

/// The jobs whose `main` is called when this happens.
pub open spec fn started_jobs(w: World, happening: Happening) -> Seq<usize> {
    match happening {
        Happening::Goes { thread, with } => {
            match crate::worker::thread_step(w.slots[w.workers[thread].slot], with).1 {
                ThreadStep::RunJob(job) => seq![job],
                _ => seq![],
            }
        },
        Happening::Told { .. } => seq![],
    }
}

/// The jobs whose `main` is called in the course, in that order.
pub open spec fn all_started_jobs(w: World, course: Seq<Happening>) -> Seq<usize>
    decreases course.len(),
{
    if course.len() == 0 {
        seq![]
    } else {
        all_started_jobs(w, course.drop_last()) + started_jobs(
            after_course(w, course.drop_last()),
            course.last(),
        )
    }
}

/// A course of the world is a run of the scheduler in which every thread
/// keeps to its part.
proof fn lemma_course(ums_completion_list: usize, first_job: usize, course: Seq<Happening>)
    requires
        is_course(World::fresh(ums_completion_list, first_job), course),
    ensures
        ({
            let start = World::fresh(ums_completion_list, first_job);
            let w = after_course(start, course);
            let run = told(course);
            let (t, crew) = crate::crew::after_run(start.scheduler, Crew::empty(), run);
            &&& w.first_job == first_job
            &&& w.scheduler == t
            &&& w.in_step(crew)
            &&& crate::crew::is_permitted_run(start.scheduler, Crew::empty(), run)
            &&& crate::run::is_connected(start.scheduler, Crew::empty(), run)
            &&& w.step == if run.len() == 0 {
                None
            } else {
                Some(crate::run::last_step(start.scheduler, Crew::empty(), run))
            }
        }),
    decreases course.len(),
{
    let start = World::fresh(ums_completion_list, first_job);
    if course.len() == 0 {
    } else {
        let before = course.drop_last();
        lemma_course(ums_completion_list, first_job, before);
        let w = after_course(start, before);
        let crew = crate::crew::after_run(start.scheduler, Crew::empty(), told(before)).1;
        match course.last() {
            Happening::Goes { thread, with } => {
                lemma_goes(w, crew, thread, with);
            },
            Happening::Told { input, thread, slot } => {
                lemma_permitted(w, crew, input, thread, slot);
                lemma_told(w, crew, input, thread, slot);
                assert(told(course).drop_last() =~= told(before));
            },
        }
    }
}

/// Whether a thread is in `main` of the job.
spec fn is_running(w: World, job: usize) -> bool {
    exists|t: usize| #[trigger]
        w.workers.dom().contains(t) && w.workers[t].doing == Some(ThreadStep::RunJob(job))
}

/// The jobs that are reported complete when this happens.
spec fn completed(happening: Happening) -> Seq<usize> {
    match happening {
        Happening::Told { input, .. } => crate::run::completed_jobs(input),
        Happening::Goes { .. } => seq![],
    }
}

/// A thread is in `main` of a job from the call to the report.
proof fn lemma_running(w: World, crew: Crew, happening: Happening, job: usize)
    requires
        w.in_step(crew),
        w.may(happening),
    ensures
        crate::run::once(is_running(w, job)) + crate::run::once(
            started_jobs(w, happening) == seq![job],
        ) == crate::run::once(is_running(w.after(happening), job)) + crate::run::once(
            completed(happening) == seq![job],
        ),
{
    let after = w.after(happening);
    assert(seq![job].len() == 1 && seq![job][0] == job);
    let actor = match happening {
        Happening::Goes { thread, .. } => thread,
        Happening::Told { input, thread, .. } => match input {
            SchedulerInput::Entered {
                cause: SchedulerEntryCause::ThreadReady { ums_thread_context, .. },
                ..
            } => ums_thread_context,
            _ => thread,
        },
    };
    if is_running(w, job) {
        let t = choose|t: usize| #[trigger]
            w.workers.dom().contains(t) && w.workers[t].doing == Some(ThreadStep::RunJob(job));
        if t != actor {
            assert(after.workers.dom().contains(t) && after.workers[t] == w.workers[t]);
        }
    }
    if w.workers.dom().contains(actor) {
        assert(after.workers.dom().contains(actor) || happening is Told);
    }
}

/// `main` of a job was called as often as the job was reported complete, and
/// once more if a thread is in it.
proof fn lemma_started_jobs(
    ums_completion_list: usize,
    first_job: usize,
    course: Seq<Happening>,
    job: usize,
)
    requires
        is_course(World::fresh(ums_completion_list, first_job), course),
    ensures
        ({
            let start = World::fresh(ums_completion_list, first_job);
            let inputs = crate::run::inputs_of(told(course));
            all_started_jobs(start, course).to_multiset().count(job)
                == crate::run::all_completed_jobs(inputs).to_multiset().count(job)
                + crate::run::once(is_running(after_course(start, course), job))
        }),
    decreases course.len(),
{
    let start = World::fresh(ums_completion_list, first_job);
    let inputs = crate::run::inputs_of(told(course));
    if course.len() == 0 {
        crate::run::lemma_count_in_short(all_started_jobs(start, course), job);
        crate::run::lemma_count_in_short(crate::run::all_completed_jobs(inputs), job);
    } else {
        let before = course.drop_last();
        let w = after_course(start, before);
        let crew = crate::crew::after_run(start.scheduler, Crew::empty(), told(before)).1;
        let inputs_before = crate::run::inputs_of(told(before));
        lemma_course(ums_completion_list, first_job, before);
        lemma_started_jobs(ums_completion_list, first_job, before, job);
        lemma_running(w, crew, course.last(), job);
        let begun = started_jobs(w, course.last());
        let done = completed(course.last());
        crate::run::lemma_count_in_sum(all_started_jobs(start, before), begun, job);
        crate::run::lemma_count_in_short(begun, job);
        crate::run::lemma_count_in_sum(
            crate::run::all_completed_jobs(inputs_before),
            done,
            job,
        );
        crate::run::lemma_count_in_short(done, job);
        if course.last() is Told {
            assert(inputs.drop_last() =~= inputs_before);
        } else {
            assert(crate::run::all_completed_jobs(inputs_before) + done
                =~= crate::run::all_completed_jobs(inputs_before));
        }
    }
}

/// The first job is not delegated.
proof fn lemma_first_job_is_not_delegated(
    ums_completion_list: usize,
    first_job: usize,
    course: Seq<Happening>,
)
    requires
        is_course(World::fresh(ums_completion_list, first_job), course),
    ensures
        !crate::order::all_arrived_jobs(crate::run::inputs_of(told(course))).contains(first_job),
    decreases course.len(),
{
    if course.len() > 0 {
        let before = course.drop_last();
        lemma_course(ums_completion_list, first_job, before);
        lemma_first_job_is_not_delegated(ums_completion_list, first_job, before);
        let inputs = crate::run::inputs_of(told(course));
        if let Happening::Told { input, .. } = course.last() {
            assert(inputs.drop_last() =~= crate::run::inputs_of(told(before)));
            assert(crate::order::all_arrived_jobs(inputs) == crate::order::all_arrived_jobs(
                inputs.drop_last(),
            ) + crate::order::arrived_jobs(input));
        }
    }
}

/// Nothing happens out of turn: whatever course the world has taken, what the
/// scheduler is told next is what it can take, and so is what `thread_main` of
/// a thread is told, when the thread goes on and when it is about to yield.
pub proof fn law_nothing_happens_out_of_turn(
    ums_completion_list: usize,
    first_job: usize,
    course: Seq<Happening>,
    happening: Happening,
)
    requires
        is_course(World::fresh(ums_completion_list, first_job), course),
        after_course(World::fresh(ums_completion_list, first_job), course).may(happening),
    ensures
        ({
            let w = after_course(World::fresh(ums_completion_list, first_job), course);
            match happening {
                Happening::Goes { thread, with } => crate::worker::thread_accepts(
                    w.slots[w.workers[thread].slot],
                    with,
                ),
                Happening::Told { input, .. } => {
                    &&& w.scheduler.accepts(input)
                    &&& forall|thread: usize, slot: usize, event: ThreadEvent| #[trigger]
                        w.reports(thread, slot, event) ==> crate::worker::thread_accepts(
                            w.slots[slot],
                            w.before_yield(thread)->0,
                        )
                },
            }
        }),
{
    let start = World::fresh(ums_completion_list, first_job);
    let w = after_course(start, course);
    let crew = crate::crew::after_run(start.scheduler, Crew::empty(), told(course)).1;
    lemma_course(ums_completion_list, first_job, course);
    match happening {
        Happening::Goes { thread, with } => {
            lemma_goes(w, crew, thread, with);
        },
        Happening::Told { input, thread, slot } => {
            lemma_permitted(w, crew, input, thread, slot);
            crate::crew::law_books_agree(w.scheduler, crew, input, thread);
        },
    }
}

/// When the scheduler of the library's threads and jobs leaves, nothing is
/// left undone. There is no job and no thread. `main` of the first job was
/// called exactly once. The jobs were handed out in the order in which they
/// came, and each one was run and reported complete as often as it came. Each
/// thread that was created has returned from `thread_main`, and its context
/// was deleted, as often as it was created.
pub proof fn law_scheduler_leaves_nothing_undone(
    ums_completion_list: usize,
    first_job: usize,
    course: Seq<Happening>,
)
    requires
        is_course(World::fresh(ums_completion_list, first_job), course),
        after_course(World::fresh(ums_completion_list, first_job), course).step == Some(
            SchedulerStep::Exit,
        ),
    ensures
        ({
            let start = World::fresh(ums_completion_list, first_job);
            let w = after_course(start, course);
            let run = told(course);
            let inputs = crate::run::inputs_of(run);
            let jobs = seq![first_job] + crate::order::all_arrived_jobs(inputs);
            let started = all_started_jobs(start, course);
            &&& w.scheduler.total_job_count == 0
            &&& w.scheduler.thread_count_total == 0
            &&& w.scheduler.queued_jobs.len() == 0
            &&& w.scheduler.idle_threads.len() == 0
            &&& crate::order::all_assigned_jobs(start.scheduler, inputs) == jobs
            &&& started.to_multiset() == jobs.to_multiset()
            &&& started.to_multiset().count(first_job) == 1
            &&& crate::run::all_completed_jobs(inputs).to_multiset() == jobs.to_multiset()
            &&& crate::run::all_ended_threads(inputs).to_multiset()
                == crate::run::all_created_threads(run).to_multiset()
            &&& crate::run::all_deleted_contexts(start.scheduler, inputs)
                == crate::run::all_ended_threads(inputs)
        }),
{
    let start = World::fresh(ums_completion_list, first_job);
    let w = after_course(start, course);
    let run = told(course);
    let inputs = crate::run::inputs_of(run);
    let started = all_started_jobs(start, course);
    lemma_course(ums_completion_list, first_job, course);
    lemma_first_job_is_not_delegated(ums_completion_list, first_job, course);
    crate::run::law_run_leaves_nothing_undone(ums_completion_list, first_job, run);
    assert forall|job: usize| #[trigger]
        started.to_multiset().count(job) == crate::run::all_completed_jobs(
            inputs,
        ).to_multiset().count(job) by {
        lemma_started_jobs(ums_completion_list, first_job, course, job);
    }
}

/// A thread of the library that was given a job and could not be resumed
/// because it is busy keeps the job, whatever has happened before. The
/// scheduler can be told of it. Afterwards the job is still in the slot where
/// it was put, is not queued, and the thread is not idle; no job was counted,
/// and the thread is behind all that can go on.
pub proof fn law_busy_worker_keeps_its_job(
    ums_completion_list: usize,
    first_job: usize,
    course: Seq<Happening>,
    thread: usize,
    slot: usize,
    job: usize,
    slot_event: ThreadEvent,
)
    requires
        is_course(World::fresh(ums_completion_list, first_job), course),
        after_course(World::fresh(ums_completion_list, first_job), course).step == Some(
            SchedulerStep::Resume(
                Resumption {
                    write: Some(
                        SlotWrite { event_slot: slot, event: ThreadEvent::ThreadAssignedJob(job) },
                    ),
                    ums_thread_context: thread,
                },
            ),
        ),
        crate::crew::within_limits(
            after_course(World::fresh(ums_completion_list, first_job), course).scheduler,
        ),
    ensures
        ({
            let w = after_course(World::fresh(ums_completion_list, first_job), course);
            let retry = Happening::Told {
                input: SchedulerInput::Entered {
                    cause: SchedulerEntryCause::ThreadReady {
                        ums_thread_context: thread,
                        cause: ThreadReadyCause::Busy,
                    },
                    slot_event,
                },
                thread,
                slot,
            };
            let after = w.after(retry);
            &&& w.may(retry)
            &&& w.slots.contains_pair(slot, ThreadEvent::ThreadAssignedJob(job))
            &&& after.slots.contains_pair(slot, ThreadEvent::ThreadAssignedJob(job))
            &&& !after.scheduler.queued_jobs.contains(job)
            &&& forall|i: int|
                0 <= i < after.scheduler.idle_threads.len() ==> (
                #[trigger] after.scheduler.idle_threads[i]).ums_thread_context != thread
            &&& after.scheduler.total_job_count == w.scheduler.total_job_count
            &&& w.scheduler.runnable_threads.push(thread) == crate::order::continued_threads(
                after.step->0,
            ) + after.scheduler.runnable_threads
        }),
{
    let start = World::fresh(ums_completion_list, first_job);
    let w = after_course(start, course);
    let crew = crate::crew::after_run(start.scheduler, Crew::empty(), told(course)).1;
    let input = SchedulerInput::Entered {
        cause: SchedulerEntryCause::ThreadReady {
            ums_thread_context: thread,
            cause: ThreadReadyCause::Busy,
        },
        slot_event,
    };
    lemma_course(ums_completion_list, first_job, course);
    lemma_permitted(w, crew, input, thread, slot);
    crate::run::law_step_leaves_assignment_alone(
        w.scheduler,
        crew,
        w.slots,
        input,
        thread,
        thread,
        slot,
        job,
    );
    let (u, step) = w.scheduler.step(input);
    assert(w.scheduler.runnable_threads.push(thread) =~= crate::order::continued_threads(step)
        + u.runnable_threads);
}

/// The whole of `run_ums_scheduler`: the completion list was created, the
/// scheduling mode was entered with what the start asked for, and it was left
/// once the scheduler had left. Then the outcome is a success, and nothing is
/// left undone: no job and no thread, every job run and complete, the first
/// one exactly once, and every thread ended and its context deleted.
pub proof fn law_run_ums_scheduler(
    setup: SchedulerSetup,
    ums_completion_list: usize,
    entered: SchedulerSetup,
    mode: SchedulerSetupStep,
    course: Seq<Happening>,
    left: SchedulerSetup,
    outcome: SchedulerSetupStep,
)
    requires
        setup.stepped(
            SchedulerSetupInput::CompletionListCreated { returned: TRUE, ums_completion_list },
            entered,
            mode,
        ),
        is_course(World::fresh(ums_completion_list, setup.job), course),
        after_course(World::fresh(ums_completion_list, setup.job), course).step == Some(
            SchedulerStep::Exit,
        ),
        entered.stepped(
            SchedulerSetupInput::SchedulingModeLeft { returned: TRUE },
            left,
            outcome,
        ),
    ensures
        ({
            let start = World::fresh(ums_completion_list, setup.job);
            let w = after_course(start, course);
            let inputs = crate::run::inputs_of(told(course));
            let jobs = seq![setup.job] + crate::order::all_arrived_jobs(inputs);
            &&& mode matches SchedulerSetupStep::EnterSchedulingMode { scheduler_state, .. }
                && scheduler_state@ == start.scheduler
            &&& outcome == SchedulerSetupStep::Done(Ok(()))
            &&& left.held() == seq![Resource::CompletionList(ums_completion_list)]
            &&& w.scheduler.total_job_count == 0
            &&& w.scheduler.thread_count_total == 0
            &&& all_started_jobs(start, course).to_multiset().count(setup.job) == 1
            &&& all_started_jobs(start, course).to_multiset() == jobs.to_multiset()
            &&& crate::run::all_completed_jobs(inputs).to_multiset() == jobs.to_multiset()
            &&& crate::run::all_deleted_contexts(start.scheduler, inputs).to_multiset()
                == crate::run::all_created_threads(told(course)).to_multiset()
        }),
{
    law_scheduler_leaves_nothing_undone(ums_completion_list, setup.job, course);
}

/// The methods of a job are called only on jobs that are there, and each job is
/// told what is true of it. That it was queued, a job is told that was just
/// delegated and is in the queue, together with the thread that delegated it.
/// Of a stop, a job is told that is not complete. That it is complete, a job is
/// told that is neither queued nor in the slot of any thread that was given it.
pub proof fn law_methods_are_called_on_jobs_that_are_there(
    ums_completion_list: usize,
    first_job: usize,
    course: Seq<Happening>,
    call: HookCall,
)
    requires
        is_course(World::fresh(ums_completion_list, first_job), course),
        after_course(World::fresh(ums_completion_list, first_job), course).step == Some(
            SchedulerStep::CallHook(call),
        ),
    ensures
        ({
            let w = after_course(World::fresh(ums_completion_list, first_job), course);
            let given = |job: usize|
                exists|t: usize| #[trigger]
                    w.workers.dom().contains(t) && w.slots[w.workers[t].slot]
                        == ThreadEvent::ThreadAssignedJob(job);
            match call {
                HookCall::OnSchedule { job, invoker_ums_thread_context } => {
                    &&& w.is_there(job)
                    &&& w.scheduler.queued_jobs.contains(job)
                    &&& w.delegations.dom().contains(job)
                    &&& w.delegations[job].ums_thread_context == invoker_ums_thread_context
                },
                HookCall::OnBlocking { job, .. } => {
                    &&& w.is_there(job)
                    &&& w.scheduler.last_execution matches Some(e)
                    &&& e.event == ThreadEvent::ThreadAssignedJob(job)
                    &&& !w.scheduler.queued_jobs.contains(job)
                    &&& given(job)
                },
                HookCall::OnComplete { job } => {
                    &&& w.is_there(job)
                    &&& !w.scheduler.queued_jobs.contains(job)
                    &&& !given(job)
                },
            }
        }),
{
    let start = World::fresh(ums_completion_list, first_job);
    let w = after_course(start, course);
    let crew = crate::crew::after_run(start.scheduler, Crew::empty(), told(course)).1;
    lemma_course(ums_completion_list, first_job, course);
    if let HookCall::OnBlocking { job, .. } = call {
        let e = w.scheduler.last_execution->0;
        assert(crew.slots.dom().contains(e.ums_thread_context));
        assert(w.workers[e.ums_thread_context].slot == e.event_slot);
    }
    if let HookCall::OnComplete { job } = call {
        if exists|t: usize| #[trigger]
            w.workers.dom().contains(t) && w.slots[w.workers[t].slot]
                == ThreadEvent::ThreadAssignedJob(job) {
            let t = choose|t: usize| #[trigger]
                w.workers.dom().contains(t) && w.slots[w.workers[t].slot]
                    == ThreadEvent::ThreadAssignedJob(job);
            assert(crew.working.dom().contains(t) && crew.working[t] == job);
        }
    }
}

/// No job waits beside an idle thread: whatever has happened, when the
/// scheduler waits, creates a thread, leaves or lets a thread go on with what
/// it was doing, no job is queued or no thread is idle.
pub proof fn law_no_job_waits_beside_an_idle_thread(
    ums_completion_list: usize,
    first_job: usize,
    course: Seq<Happening>,
)
    requires
        is_course(World::fresh(ums_completion_list, first_job), course),
    ensures
        ({
            let w = after_course(World::fresh(ums_completion_list, first_job), course);
            match w.step {
                Some(SchedulerStep::Resume(r)) => r.write is Some
                    || w.scheduler.queued_jobs.len() == 0 || w.scheduler.idle_threads.len() == 0,
                Some(SchedulerStep::WaitForThreads { .. })
                | Some(SchedulerStep::CreateThread { .. })
                | Some(SchedulerStep::Exit) => w.scheduler.queued_jobs.len() == 0
                    || w.scheduler.idle_threads.len() == 0,
                _ => true,
            }
        }),
{
    lemma_course(ums_completion_list, first_job, course);
}

} // verus!
