//! What holds of whole runs: from the first entry of the scheduler to its
//! exit, and from the assignment of a job to its completion.
use crate::cause::{ExecuteError, SchedulerEntryCause, ThreadFlags, ThreadReadyCause};
use crate::crew::Crew;
use crate::event::ThreadEvent;
use crate::platform::ERROR_RETRY;
use crate::scheduler::{Resumption, SchedulerInput, SchedulerModel, SchedulerStep, SlotWrite};
use vstd::prelude::*;

verus! {

/// Whether the input is what comes of the step. `thread` is the one that was
/// created or whose context was deleted, if one was.
pub open spec fn answers(step: SchedulerStep, input: SchedulerInput, thread: usize) -> bool {
    match step {
        SchedulerStep::CallHook(_) => input is HookReturned,
        SchedulerStep::DeleteContext { ums_thread_context } => input is ContextDeleted && thread
            == ums_thread_context,
        SchedulerStep::CreateThread { missing, .. } => input == SchedulerInput::ThreadCreated {
            missing,
        },
        SchedulerStep::WaitForThreads { .. } => input is ThreadsReady,
        SchedulerStep::Resume(_) => input is Entered,
        SchedulerStep::Exit => false,
    }
}

/// The step that the last input of the run led to.
pub open spec fn last_step(
    s: SchedulerModel,
    crew: Crew,
    run: Seq<(SchedulerInput, usize)>,
) -> SchedulerStep {
    crate::crew::after_run(s, crew, run.drop_last()).0.step(run.last().0).1
}

/// Whether the run begins with the scheduler being entered and each further
/// input answers the step before it.
pub open spec fn is_connected(
    s: SchedulerModel,
    crew: Crew,
    run: Seq<(SchedulerInput, usize)>,
) -> bool
    decreases run.len(),
{
    run.len() > 0 ==> {
        &&& is_connected(s, crew, run.drop_last())
        &&& if run.len() == 1 {
            run.last().0 is Entered
        } else {
            answers(last_step(s, crew, run.drop_last()), run.last().0, run.last().1)
        }
    }
}

/// The inputs of the run.
pub open spec fn inputs_of(run: Seq<(SchedulerInput, usize)>) -> Seq<SchedulerInput> {
    Seq::new(run.len(), |i: int| run[i].0)
}

/// The jobs that the input reports complete.
pub open spec fn completed_jobs(input: SchedulerInput) -> Seq<usize> {
    match input {
        SchedulerInput::Entered {
            cause: SchedulerEntryCause::ThreadReady { cause: ThreadReadyCause::Yield { .. }, .. },
            slot_event: ThreadEvent::ThreadCompleteJob(job),
        } => seq![job],
        _ => seq![],
    }
}

/// The jobs that these inputs report complete, in their order.
pub open spec fn all_completed_jobs(inputs: Seq<SchedulerInput>) -> Seq<usize>
    decreases inputs.len(),
{
    if inputs.len() == 0 {
        seq![]
    } else {
        all_completed_jobs(inputs.drop_last()) + completed_jobs(inputs.last())
    }
}

/// The threads that were created in the run, in their order.
pub open spec fn all_created_threads(run: Seq<(SchedulerInput, usize)>) -> Seq<usize>
    decreases run.len(),
{
    if run.len() == 0 {
        seq![]
    } else {
        all_created_threads(run.drop_last()) + if run.last().0 is ThreadCreated {
            seq![run.last().1]
        } else {
            seq![]
        }
    }
}

/// The threads that the input reports to have ended.
pub open spec fn ended_threads(input: SchedulerInput) -> Seq<usize> {
    match input {
        SchedulerInput::Entered {
            cause: SchedulerEntryCause::ThreadReady {
                ums_thread_context,
                cause: ThreadReadyCause::Terminated,
            },
            ..
        } => seq![ums_thread_context],
        _ => seq![],
    }
}

/// The threads that these inputs report to have ended, in their order.
pub open spec fn all_ended_threads(inputs: Seq<SchedulerInput>) -> Seq<usize>
    decreases inputs.len(),
{
    if inputs.len() == 0 {
        seq![]
    } else {
        all_ended_threads(inputs.drop_last()) + ended_threads(inputs.last())
    }
}

/// The contexts that the step has deleted.
pub open spec fn deleted_contexts(step: SchedulerStep) -> Seq<usize> {
    match step {
        SchedulerStep::DeleteContext { ums_thread_context } => seq![ums_thread_context],
        _ => seq![],
    }
}

/// The contexts that the scheduler has deleted on these inputs, in their
/// order.
pub open spec fn all_deleted_contexts(s: SchedulerModel, inputs: Seq<SchedulerInput>) -> Seq<usize>
    decreases inputs.len(),
{
    if inputs.len() == 0 {
        seq![]
    } else {
        all_deleted_contexts(s, inputs.drop_last()) + deleted_contexts(
            crate::order::after_inputs(s, inputs.drop_last()).step(inputs.last()).1,
        )
    }
}

/// The scheduler after a run is the scheduler after its inputs, and in a
/// permitted run the assignment of jobs is left to the scheduler.
proof fn lemma_inputs_of(s: SchedulerModel, crew: Crew, run: Seq<(SchedulerInput, usize)>)
    ensures
        crate::crew::after_run(s, crew, run).0 == crate::order::after_inputs(s, inputs_of(run)),
        crate::crew::is_permitted_run(s, crew, run) ==> forall|i: int|
            0 <= i < run.len() ==> crate::order::leaves_assignment(#[trigger] inputs_of(run)[i]),
    decreases run.len(),
{
    if run.len() > 0 {
        let before = run.drop_last();
        lemma_inputs_of(s, crew, before);
        assert(inputs_of(run).drop_last() =~= inputs_of(before));
        if crate::crew::is_permitted_run(s, crew, run) {
            assert forall|i: int| 0 <= i < run.len() implies crate::order::leaves_assignment(
                #[trigger] inputs_of(run)[i],
            ) by {
                if i < before.len() {
                    assert(inputs_of(run)[i] == inputs_of(before)[i]);
                }
            }
        }
    }
}

/// One if the condition holds.
pub open spec fn once(condition: bool) -> nat {
    if condition {
        1
    } else {
        0
    }
}

pub(crate) proof fn lemma_count_in_sum(a: Seq<usize>, b: Seq<usize>, x: usize)
    ensures
        (a + b).to_multiset().count(x) == a.to_multiset().count(x) + b.to_multiset().count(x),
{
    vstd::seq_lib::lemma_multiset_commutative(a, b);
}

pub(crate) proof fn lemma_count_in_short(a: Seq<usize>, x: usize)
    requires
        a.len() <= 1,
    ensures
        a.to_multiset().count(x) == once(a.len() == 1 && a[0] == x),
{
    broadcast use vstd::seq_lib::group_to_multiset_ensures;

    if a.len() == 1 {
        assert(a =~= Seq::<usize>::empty().push(a[0]));
    }
}

/// A job is no longer worked on once it was reported complete; the others
/// are.
proof fn lemma_job_in_note(
    s: SchedulerModel,
    crew: Crew,
    input: SchedulerInput,
    thread: usize,
    job: usize,
)
    requires
        crew.agrees(s),
        crew.permits(s, input, thread),
    ensures
        once(crew.working.contains_value(job)) == once(
            crew.noted(input, thread).working.contains_value(job),
        ) + once(completed_jobs(input) == seq![job]),
{
    let noted = crew.noted(input, thread);
    if let SchedulerInput::Entered {
        cause: SchedulerEntryCause::ThreadReady {
            ums_thread_context,
            cause: ThreadReadyCause::Yield { .. },
        },
        slot_event: ThreadEvent::ThreadCompleteJob(done),
    } = input {
        if crew.working.contains_value(job) {
            let t = choose|t: usize| #[trigger]
                crew.working.dom().contains(t) && crew.working[t] == job;
            if t != ums_thread_context {
                assert(noted.working.dom().contains(t) && noted.working[t] == job);
            }
        }
        assert(seq![job][0] == job);
    } else {
        assert(seq![job].len() == 1);
    }
}

/// A job that is handed out was not worked on before, and is then; nothing
/// changes for the others.
proof fn lemma_job_in_dispatch(s: SchedulerModel, crew: Crew, input: SchedulerInput, job: usize)
    requires
        crew.agrees(crate::crew::noted_model(s, input)),
        crate::order::leaves_assignment(input),
    ensures
        once(crew.working.contains_value(job)) + once(
            crate::order::assigned_jobs(s.step(input).1) == seq![job],
        ) == once(crew.dispatched(s.step(input).1).working.contains_value(job)),
{
    let noted = crate::crew::noted_model(s, input);
    let step = s.step(input).1;
    let after = crew.dispatched(step);
    let given = crate::order::assigned_jobs(step);
    if given.len() > 0 {
        let thread = noted.idle_threads.last().ums_thread_context;
        assert(after.working.dom().contains(thread) && after.working[thread] == given[0]);
        if crew.working.contains_value(job) {
            let t = choose|t: usize| #[trigger]
                crew.working.dom().contains(t) && crew.working[t] == job;
            assert(after.working.dom().contains(t) && after.working[t] == job);
        }
    }
}

/// A job was handed out as often as it was reported complete, and once more
/// if it is worked on.
proof fn lemma_jobs_in_run(
    s: SchedulerModel,
    crew: Crew,
    run: Seq<(SchedulerInput, usize)>,
    job: usize,
)
    requires
        crew.agrees(s),
        crew.working == Map::<usize, usize>::empty(),
        crate::crew::is_permitted_run(s, crew, run),
    ensures
        crate::order::all_assigned_jobs(s, inputs_of(run)).to_multiset().count(job)
            == all_completed_jobs(inputs_of(run)).to_multiset().count(job) + once(
            crate::crew::after_run(s, crew, run).1.working.contains_value(job),
        ),
    decreases run.len(),
{
    let inputs = inputs_of(run);
    if run.len() == 0 {
        lemma_count_in_short(crate::order::all_assigned_jobs(s, inputs), job);
        lemma_count_in_short(all_completed_jobs(inputs), job);
    } else {
        let before = run.drop_last();
        let (input, thread) = run.last();
        let (t, c) = crate::crew::after_run(s, crew, before);
        lemma_jobs_in_run(s, crew, before, job);
        lemma_inputs_of(s, crew, before);
        crate::crew::lemma_run_agrees(s, crew, before);
        assert(inputs.drop_last() =~= inputs_of(before));
        let given = crate::order::assigned_jobs(t.step(input).1);
        let done = completed_jobs(input);
        lemma_count_in_sum(crate::order::all_assigned_jobs(s, inputs_of(before)), given, job);
        lemma_count_in_sum(all_completed_jobs(inputs_of(before)), done, job);
        lemma_count_in_short(given, job);
        lemma_count_in_short(done, job);
        lemma_job_in_note(t, c, input, thread, job);
        crate::crew::lemma_noted_agrees(t, c, input, thread);
        lemma_job_in_dispatch(t, c.noted(input, thread), input, job);
    }
}

/// Whether the thread is there: starting, idle, working or leaving.
spec fn is_there(s: SchedulerModel, crew: Crew, thread: usize) -> bool {
    ||| crew.has(thread)
    ||| exists|i: int|
        0 <= i < s.idle_threads.len() && (#[trigger] s.idle_threads[i]).ums_thread_context == thread
}

/// A thread is there from its creation to the deletion of its context.
proof fn lemma_thread_in_note(
    s: SchedulerModel,
    crew: Crew,
    input: SchedulerInput,
    who: usize,
    thread: usize,
)
    requires
        crew.agrees(s),
        crew.permits(s, input, who),
    ensures
        once(is_there(s, crew, thread)) + once(input is ThreadCreated && who == thread) == once(
            is_there(crate::crew::noted_model(s, input), crew.noted(input, who), thread),
        ) + once(input is ContextDeleted && who == thread),
{
    let t = crate::crew::noted_model(s, input);
    if exists|i: int|
        0 <= i < s.idle_threads.len() && (#[trigger] s.idle_threads[i]).ums_thread_context
            == thread {
        let i = choose|i: int|
            0 <= i < s.idle_threads.len() && (#[trigger] s.idle_threads[i]).ums_thread_context
                == thread;
        assert(t.idle_threads[i] == s.idle_threads[i]);
    }
    if t.idle_threads.len() > s.idle_threads.len() {
        assert(t.idle_threads[s.idle_threads.len() as int] == t.idle_threads.last());
    }
}

/// No step makes a thread appear or vanish.
proof fn lemma_thread_in_dispatch(
    s: SchedulerModel,
    crew: Crew,
    input: SchedulerInput,
    thread: usize,
)
    requires
        crew.agrees(crate::crew::noted_model(s, input)),
        input matches SchedulerInput::HookReturned(Some(e)) ==> e.event
            == ThreadEvent::CompleteJob,
    ensures
        is_there(crate::crew::noted_model(s, input), crew, thread) == is_there(
            s.step(input).0,
            crew.dispatched(s.step(input).1),
            thread,
        ),
{
    let noted = crate::crew::noted_model(s, input);
    let t = s.step(input).0;
    if exists|i: int|
        0 <= i < noted.idle_threads.len() && (#[trigger] noted.idle_threads[i]).ums_thread_context
            == thread {
        let i = choose|i: int|
            0 <= i < noted.idle_threads.len() && (
            #[trigger] noted.idle_threads[i]).ums_thread_context == thread;
        if i < t.idle_threads.len() {
            assert(t.idle_threads[i] == noted.idle_threads[i]);
        }
    }
}

/// A thread was created as often as its context was deleted, and once more if
/// it is there and its context is not just being deleted.
proof fn lemma_threads_in_run(
    s: SchedulerModel,
    crew: Crew,
    run: Seq<(SchedulerInput, usize)>,
    thread: usize,
)
    requires
        crew.agrees(s),
        !is_there(s, crew, thread),
        crate::crew::is_permitted_run(s, crew, run),
        is_connected(s, crew, run),
    ensures
        ({
            let (t, c) = crate::crew::after_run(s, crew, run);
            all_created_threads(run).to_multiset().count(thread) + once(
                run.len() > 0 && deleted_contexts(last_step(s, crew, run)) == seq![thread],
            ) == all_deleted_contexts(s, inputs_of(run)).to_multiset().count(thread) + once(
                is_there(t, c, thread),
            )
        }),
    decreases run.len(),
{
    let inputs = inputs_of(run);
    if run.len() == 0 {
        lemma_count_in_short(all_created_threads(run), thread);
        lemma_count_in_short(all_deleted_contexts(s, inputs), thread);
    } else {
        let before = run.drop_last();
        let (input, who) = run.last();
        let (t, c) = crate::crew::after_run(s, crew, before);
        lemma_threads_in_run(s, crew, before, thread);
        lemma_inputs_of(s, crew, before);
        crate::crew::lemma_run_agrees(s, crew, before);
        assert(inputs.drop_last() =~= inputs_of(before));
        let created: Seq<usize> = if input is ThreadCreated {
            seq![who]
        } else {
            seq![]
        };
        let deleted = deleted_contexts(t.step(input).1);
        lemma_count_in_sum(all_created_threads(before), created, thread);
        lemma_count_in_sum(all_deleted_contexts(s, inputs_of(before)), deleted, thread);
        lemma_count_in_short(created, thread);
        lemma_count_in_short(deleted, thread);
        lemma_thread_in_note(t, c, input, who, thread);
        crate::crew::lemma_noted_agrees(t, c, input, who);
        lemma_thread_in_dispatch(t, c.noted(input, who), input, thread);
        // The context that the step before had deleted is the one of which
        // the input tells.
        if before.len() > 0 {
            let gone = deleted_contexts(last_step(s, crew, before));
            if gone.len() == 1 {
                assert(gone =~= seq![gone[0]]);
            }
        }
    }
}

/// The contexts that are deleted are those of the threads that ended, in that
/// order.
pub proof fn law_contexts_of_ended_threads_are_deleted(
    s: SchedulerModel,
    inputs: Seq<SchedulerInput>,
)
    ensures
        all_deleted_contexts(s, inputs) == all_ended_threads(inputs),
    decreases inputs.len(),
{
    if inputs.len() > 0 {
        law_contexts_of_ended_threads_are_deleted(s, inputs.drop_last());
    }
}

/// A run that begins with one job and comes to its end leaves nothing undone.
/// No job and no thread is left. The jobs that were handed out are the first
/// one and those that were delegated, in that order, and each was reported
/// complete as often as it was handed out; for the first one that is once,
/// unless it is delegated again. Each thread that was created ended, and its
/// context was deleted, as often as it was created.
pub proof fn law_run_leaves_nothing_undone(
    ums_completion_list: usize,
    job: usize,
    run: Seq<(SchedulerInput, usize)>,
)
    requires
        run.len() > 0,
        ({
            let fresh = SchedulerModel::fresh(ums_completion_list, seq![job]);
            &&& crate::crew::is_permitted_run(fresh, Crew::empty(), run)
            &&& is_connected(fresh, Crew::empty(), run)
            &&& last_step(fresh, Crew::empty(), run) is Exit
        }),
    ensures
        ({
            let fresh = SchedulerModel::fresh(ums_completion_list, seq![job]);
            let inputs = inputs_of(run);
            let (t, crew) = crate::crew::after_run(fresh, Crew::empty(), run);
            let assigned = crate::order::all_assigned_jobs(fresh, inputs);
            let arrived = crate::order::all_arrived_jobs(inputs);
            &&& t.total_job_count == 0
            &&& t.thread_count_total == 0
            &&& t.queued_jobs.len() == 0
            &&& t.idle_threads.len() == 0
            &&& crew.is_gone()
            &&& assigned == seq![job] + arrived
            &&& all_completed_jobs(inputs).to_multiset() == assigned.to_multiset()
            &&& !arrived.contains(job) ==> assigned.to_multiset().count(job) == 1
            &&& all_ended_threads(inputs).to_multiset() == all_created_threads(run).to_multiset()
            &&& all_deleted_contexts(fresh, inputs) == all_ended_threads(inputs)
        }),
{
    let fresh = SchedulerModel::fresh(ums_completion_list, seq![job]);
    let inputs = inputs_of(run);
    let before = run.drop_last();
    let (t, crew) = crate::crew::after_run(fresh, Crew::empty(), before);
    let assigned = crate::order::all_assigned_jobs(fresh, inputs);
    let arrived = crate::order::all_arrived_jobs(inputs);

    crate::crew::law_fresh_books_agree(ums_completion_list, seq![job]);
    crate::crew::lemma_run_agrees(fresh, Crew::empty(), before);
    crate::crew::law_exit_leaves_nothing(t, crew, run.last().0, run.last().1);
    crate::crew::law_books_agree(t, crew, run.last().0, run.last().1);

    lemma_inputs_of(fresh, Crew::empty(), run);
    crate::order::law_jobs_first_come_first_served(fresh, inputs);

    assert forall|j: usize| #[trigger]
        all_completed_jobs(inputs).to_multiset().count(j) == assigned.to_multiset().count(j) by {
        lemma_jobs_in_run(fresh, Crew::empty(), run, j);
    }
    if !arrived.contains(job) {
        broadcast use vstd::seq_lib::group_to_multiset_ensures;

        lemma_count_in_sum(seq![job], arrived, job);
        lemma_count_in_short(seq![job], job);
    }
    law_contexts_of_ended_threads_are_deleted(fresh, inputs);
    assert forall|thread: usize| #[trigger]
        all_ended_threads(inputs).to_multiset().count(thread) == all_created_threads(
            run,
        ).to_multiset().count(thread) by {
        lemma_threads_in_run(fresh, Crew::empty(), run, thread);
    }
}

/// What the slots hold after a step: first a thread that yields leaves its
/// event in its slot, then the scheduler writes the one that it resumes a
/// thread with.
pub open spec fn slots_after(
    slots: Map<usize, ThreadEvent>,
    s: SchedulerModel,
    input: SchedulerInput,
) -> Map<usize, ThreadEvent> {
    let left = match input {
        SchedulerInput::Entered {
            cause: SchedulerEntryCause::ThreadReady {
                cause: ThreadReadyCause::Yield { param },
                ..
            },
            slot_event,
        } => slots.insert(param, slot_event),
        _ => slots,
    };
    match s.step(input).1 {
        SchedulerStep::Resume(Resumption { write: Some(write), .. }) => left.insert(
            write.event_slot,
            write.event,
        ),
        _ => left,
    }
}

/// What the slots hold after a run.
pub open spec fn slots_after_run(
    slots: Map<usize, ThreadEvent>,
    s: SchedulerModel,
    crew: Crew,
    run: Seq<(SchedulerInput, usize)>,
) -> Map<usize, ThreadEvent>
    decreases run.len(),
{
    if run.len() == 0 {
        slots
    } else {
        slots_after(
            slots_after_run(slots, s, crew, run.drop_last()),
            crate::crew::after_run(s, crew, run.drop_last()).0,
            run.last().0,
        )
    }
}

/// Whether the job is assigned to the thread and nowhere else: the thread
/// works on it and finds it in its slot, the job is not queued, and the
/// thread is not idle.
pub open spec fn is_assigned(
    s: SchedulerModel,
    crew: Crew,
    slots: Map<usize, ThreadEvent>,
    thread: usize,
    slot: usize,
    job: usize,
) -> bool {
    &&& crew.working.contains_pair(thread, job)
    &&& crew.slots.contains_pair(thread, slot)
    &&& slots.contains_pair(slot, ThreadEvent::ThreadAssignedJob(job))
    &&& !s.queued_jobs.contains(job)
    &&& forall|i: int|
        0 <= i < s.idle_threads.len() ==> (#[trigger] s.idle_threads[i]).ums_thread_context
            != thread
}

/// Whether the thread reports with this input that a job is complete.
pub open spec fn completes(input: SchedulerInput, thread: usize) -> bool {
    input matches SchedulerInput::Entered {
        cause: SchedulerEntryCause::ThreadReady {
            ums_thread_context,
            cause: ThreadReadyCause::Yield { .. },
        },
        slot_event: ThreadEvent::ThreadCompleteJob(_),
    } && ums_thread_context == thread
}

/// No step of the scheduler writes the slot of a thread that works on a job,
/// queues the job again or makes the thread idle, unless the thread reports
/// the job complete.
pub proof fn law_step_leaves_assignment_alone(
    s: SchedulerModel,
    crew: Crew,
    slots: Map<usize, ThreadEvent>,
    input: SchedulerInput,
    who: usize,
    thread: usize,
    slot: usize,
    job: usize,
)
    requires
        crew.agrees(s),
        crew.permits(s, input, who),
        is_assigned(s, crew, slots, thread, slot, job),
        !completes(input, thread),
    ensures
        is_assigned(
            s.step(input).0,
            crew.after(s, input, who),
            slots_after(slots, s, input),
            thread,
            slot,
            job,
        ),
        s.step(input).1 matches SchedulerStep::Resume(Resumption { write: Some(write), .. })
            ==> write.event_slot != slot,
{
    let noted = crate::crew::noted_model(s, input);
    crate::crew::lemma_noted_agrees(s, crew, input, who);
    assert(crew.slots.contains_value(slot));
    assert(crew.working.contains_value(job));
    assert(!noted.queued_jobs.contains(job));
}

/// Until its thread reports a job complete, an assignment stands: however
/// long the run, the thread works on the job at its end and finds it in its
/// slot, the job is not queued and the thread is not idle.
pub proof fn law_assignment_stands(
    s: SchedulerModel,
    crew: Crew,
    slots: Map<usize, ThreadEvent>,
    run: Seq<(SchedulerInput, usize)>,
    thread: usize,
    slot: usize,
    job: usize,
)
    requires
        crew.agrees(s),
        crate::crew::is_permitted_run(s, crew, run),
        is_assigned(s, crew, slots, thread, slot, job),
        forall|i: int| 0 <= i < run.len() ==> !completes((#[trigger] run[i]).0, thread),
    ensures
        ({
            let (t, c) = crate::crew::after_run(s, crew, run);
            is_assigned(t, c, slots_after_run(slots, s, crew, run), thread, slot, job)
        }),
    decreases run.len(),
{
    if run.len() > 0 {
        let before = run.drop_last();
        law_assignment_stands(s, crew, slots, before, thread, slot, job);
        crate::crew::lemma_run_agrees(s, crew, before);
        let (t, c) = crate::crew::after_run(s, crew, before);
        law_step_leaves_assignment_alone(
            t,
            c,
            slots_after_run(slots, s, crew, before),
            run.last().0,
            run.last().1,
            thread,
            slot,
            job,
        );
    }
}

/// Whatever the scheduler was when it gave a thread a job: if the thread could
/// not be resumed because it is busy, nothing is taken back. The entry that
/// follows puts the thread behind all that can go on and changes nothing else
/// before the scheduler decides. The decision counts nothing, what it hands
/// out it takes from the front of the queue, and it writes no slot but that of
/// a thread that was idle; so the job stays in the slot where it was put,
/// unless an idle thread shares that slot.
pub proof fn law_retry_takes_nothing_back(
    s: SchedulerModel,
    slots: Map<usize, ThreadEvent>,
    input: SchedulerInput,
    thread: usize,
    slot: usize,
    job: usize,
    flags: ThreadFlags,
    slot_event: ThreadEvent,
)
    requires
        s.step(input).1 == SchedulerStep::Resume(
            Resumption {
                write: Some(
                    SlotWrite { event_slot: slot, event: ThreadEvent::ThreadAssignedJob(job) },
                ),
                ums_thread_context: thread,
            },
        ),
    ensures
        ({
            let t = s.step(input).0;
            let held = slots_after(slots, s, input);
            let busy = SchedulerEntryCause::ThreadReady {
                ums_thread_context: thread,
                cause: ThreadReadyCause::Busy,
            };
            let retry = SchedulerInput::Entered { cause: busy, slot_event };
            let (u, step) = t.step(retry);
            &&& crate::cause::execute_error(thread, ERROR_RETRY, flags) == ExecuteError::Entry(busy)
            &&& held.contains_pair(slot, ThreadEvent::ThreadAssignedJob(job))
            &&& (u, step) == (SchedulerModel {
                runnable_threads: t.runnable_threads.push(thread),
                ..t
            }).decided(None)
            &&& u.total_job_count == t.total_job_count
            &&& t.runnable_threads.push(thread) == crate::order::continued_threads(step)
                + u.runnable_threads
            &&& t.queued_jobs == crate::order::assigned_jobs(step) + u.queued_jobs
            &&& u.idle_threads == t.idle_threads || u.idle_threads == t.idle_threads.drop_last()
            &&& step matches SchedulerStep::Resume(Resumption { write: Some(write), .. })
                ==> t.idle_threads.len() > 0 && write.event_slot == t.idle_threads.last().event_slot
            &&& (t.idle_threads.len() > 0 ==> t.idle_threads.last().event_slot != slot)
                ==> slots_after(held, t, retry).contains_pair(
                slot,
                ThreadEvent::ThreadAssignedJob(job),
            )
        }),
{
    let t = s.step(input).0;
    let retry = SchedulerInput::Entered {
        cause: SchedulerEntryCause::ThreadReady {
            ums_thread_context: thread,
            cause: ThreadReadyCause::Busy,
        },
        slot_event,
    };
    let (u, step) = t.step(retry);
    assert(t.queued_jobs =~= crate::order::assigned_jobs(step) + u.queued_jobs);
    assert(t.runnable_threads.push(thread) =~= crate::order::continued_threads(step)
        + u.runnable_threads);
}

/// A thread that was given a job and could not be resumed because it is busy
/// keeps the job. The failure leads to an entry that the scheduler can take.
/// It puts the thread behind all that can go on, counts nothing, and leaves
/// the assignment as it is: the job stays in the thread's slot, is not queued
/// again, and the thread is not idle. So it remains through any further run,
/// until the thread reports the job complete.
pub proof fn law_busy_thread_keeps_its_job(
    s: SchedulerModel,
    crew: Crew,
    slots: Map<usize, ThreadEvent>,
    input: SchedulerInput,
    who: usize,
    thread: usize,
    slot: usize,
    job: usize,
    flags: ThreadFlags,
    slot_event: ThreadEvent,
    run: Seq<(SchedulerInput, usize)>,
)
    requires
        crew.agrees(s),
        crew.permits(s, input, who),
        crate::crew::within_limits(s),
        s.step(input).1 == SchedulerStep::Resume(
            Resumption {
                write: Some(
                    SlotWrite { event_slot: slot, event: ThreadEvent::ThreadAssignedJob(job) },
                ),
                ums_thread_context: thread,
            },
        ),
    ensures
        ({
            let t = s.step(input).0;
            let busy = SchedulerEntryCause::ThreadReady {
                ums_thread_context: thread,
                cause: ThreadReadyCause::Busy,
            };
            let retry = SchedulerInput::Entered { cause: busy, slot_event };
            let c = crew.after(s, input, who);
            let held = slots_after(slots, s, input);
            let (u, step) = t.step(retry);
            let d = c.after(t, retry, who);
            let kept = slots_after(held, t, retry);
            &&& crate::cause::execute_error(thread, ERROR_RETRY, flags) == ExecuteError::Entry(busy)
            &&& c.permits(t, retry, who)
            &&& t.accepts(retry)
            &&& t.runnable_threads.push(thread) == crate::order::continued_threads(step)
                + u.runnable_threads
            &&& u.total_job_count == t.total_job_count
            &&& is_assigned(t, c, held, thread, slot, job)
            &&& is_assigned(u, d, kept, thread, slot, job)
            &&& crate::crew::is_permitted_run(u, d, run) && (forall|i: int|
                0 <= i < run.len() ==> !completes((#[trigger] run[i]).0, thread)) ==> {
                let (v, e) = crate::crew::after_run(u, d, run);
                is_assigned(v, e, slots_after_run(kept, u, d, run), thread, slot, job)
            }
        }),
{
    let t = s.step(input).0;
    let c = crew.after(s, input, who);
    let held = slots_after(slots, s, input);
    let retry = SchedulerInput::Entered {
        cause: SchedulerEntryCause::ThreadReady {
            ums_thread_context: thread,
            cause: ThreadReadyCause::Busy,
        },
        slot_event,
    };
    let (u, step) = t.step(retry);
    let d = c.after(t, retry, who);
    let kept = slots_after(held, t, retry);

    crate::crew::lemma_noted_agrees(s, crew, input, who);
    crate::crew::law_books_agree(s, crew, input, who);
    crate::crew::law_books_agree(t, c, retry, who);
    law_step_leaves_assignment_alone(t, c, held, retry, who, thread, slot, job);
    assert(t.runnable_threads.push(thread) =~= crate::order::continued_threads(step)
        + u.runnable_threads);
    if crate::crew::is_permitted_run(u, d, run) && (forall|i: int|
        0 <= i < run.len() ==> !completes((#[trigger] run[i]).0, thread)) {
        law_assignment_stands(u, d, kept, run, thread, slot, job);
    }
}

/// The scheduler does not wait in vain: whenever a run from the first entry
/// on has brought it to wait, some thread is starting, working or leaving.
pub proof fn law_run_waits_for_someone(
    ums_completion_list: usize,
    queued_jobs: Seq<usize>,
    run: Seq<(SchedulerInput, usize)>,
)
    requires
        queued_jobs.no_duplicates(),
        run.len() > 0,
        ({
            let fresh = SchedulerModel::fresh(ums_completion_list, queued_jobs);
            &&& crate::crew::is_permitted_run(fresh, Crew::empty(), run)
            &&& is_connected(fresh, Crew::empty(), run)
            &&& last_step(fresh, Crew::empty(), run) is WaitForThreads
        }),
    ensures
        exists|thread: usize|
            crate::crew::after_run(
                SchedulerModel::fresh(ums_completion_list, queued_jobs),
                Crew::empty(),
                run,
            ).1.has(thread),
    decreases run.len(),
{
    let fresh = SchedulerModel::fresh(ums_completion_list, queued_jobs);
    let before = run.drop_last();
    let (t, c) = crate::crew::after_run(fresh, Crew::empty(), before);
    crate::crew::law_fresh_books_agree(ums_completion_list, queued_jobs);
    crate::crew::lemma_run_agrees(fresh, Crew::empty(), before);
    if run.last().0 is ThreadsReady {
        law_run_waits_for_someone(ums_completion_list, queued_jobs, before);
    }
    crate::crew::law_wait_has_someone_to_wait_for(t, c, run.last().0, run.last().1);
    let after = c.after(t, run.last().0, run.last().1);
    let thread = choose|thread: usize| after.has(thread);
    assert(crate::crew::after_run(fresh, Crew::empty(), run).1.has(thread));
}

} // verus!
