//! The scheduler's entry point: it turns the call into a cause, has it
//! handled, and resumes the thread that comes out, until that works or none
//! comes out.
use crate::cause::{ExecuteError, SchedulerEntryCause, ThreadFlags};
use crate::platform::{DWORD, ERROR_SUCCESS, UMS_SCHEDULER_REASON, UMS_THREAD_INFO_CLASS};
use crate::scheduler::Resumption;
use vstd::prelude::*;

verus! {

/// What the entry point has to do next.
#[derive(Copy, Clone, Debug, PartialEq, Eq, Structural)]
pub enum EntryStep {
    /// Have the scheduler handle this cause.
    Handle(SchedulerEntryCause),
    /// Carry the resumption out. If that works, it does not come back.
    Execute(Resumption),
    /// Ask for this flag of the thread that could not be resumed.
    Query { ums_thread_context: usize, class: UMS_THREAD_INFO_CLASS },
    /// Return to the system.
    Return,
}

/// What has happened in the entry point.
#[derive(Copy, Clone, Debug, PartialEq, Eq, Structural)]
pub enum EntryEvent {
    /// The system called it.
    Called { reason: UMS_SCHEDULER_REASON, activation_payload: usize, scheduler_param: usize },
    /// The scheduler handled the cause and wants this resumed, if anything.
    Handled(Option<Resumption>),
    /// The thread could not be resumed.
    ExecuteFailed { ums_thread_context: usize, error: DWORD },
    /// This is the flag `class` of the thread that could not be resumed.
    FlagRead { class: UMS_THREAD_INFO_CLASS, flag: bool },
}

/// How far a call of the entry point has come.
#[derive(Copy, Clone, Debug, PartialEq, Eq, Structural)]
pub enum EntryState {
    /// The system has not called it.
    New,
    /// The scheduler handles a cause.
    Handling,
    /// This thread is resumed.
    Executing { ums_thread_context: usize },
    /// This thread could not be resumed. `flags` is what is known of it.
    Failed { ums_thread_context: usize, error: DWORD, flags: ThreadFlags },
    /// It has returned.
    Over,
}

impl EntryState {
    /// Whether this can happen now: what the system gives, and what answers
    /// the step before.
    pub open spec fn accepts(self, event: EntryEvent) -> bool {
        match event {
            EntryEvent::Called { reason, activation_payload, .. } => {
                &&& self is New
                &&& crate::cause::entry_args_valid(reason, activation_payload)
            },
            EntryEvent::Handled(_) => self is Handling,
            EntryEvent::ExecuteFailed { ums_thread_context, error } => {
                &&& self == EntryState::Executing { ums_thread_context }
                &&& error != ERROR_SUCCESS
            },
            EntryEvent::FlagRead { class, .. } => {
                &&& self matches EntryState::Failed { ums_thread_context, error, flags }
                &&& error != ERROR_SUCCESS
                &&& crate::cause::execute_error(ums_thread_context, error, flags)
                    == ExecuteError::Query(class)
            },
        }
    }

    /// What follows from a failure to resume a thread.
    pub open spec fn failed(ums_thread_context: usize, error: DWORD, flags: ThreadFlags) -> (
        Self,
        EntryStep,
    ) {
        match crate::cause::execute_error(ums_thread_context, error, flags) {
            ExecuteError::Query(class) => (
                EntryState::Failed { ums_thread_context, error, flags },
                EntryStep::Query { ums_thread_context, class },
            ),
            ExecuteError::Entry(cause) => (EntryState::Handling, EntryStep::Handle(cause)),
        }
    }

    /// How far the call comes and what it does when this happens.
    pub open spec fn step(self, event: EntryEvent) -> (Self, EntryStep) {
        match event {
            EntryEvent::Called { reason, activation_payload, scheduler_param } => (
                EntryState::Handling,
                EntryStep::Handle(
                    crate::cause::entry_cause(reason, activation_payload, scheduler_param),
                ),
            ),
            EntryEvent::Handled(Some(resumption)) => (
                EntryState::Executing { ums_thread_context: resumption.ums_thread_context },
                EntryStep::Execute(resumption),
            ),
            EntryEvent::Handled(None) => (EntryState::Over, EntryStep::Return),
            EntryEvent::ExecuteFailed { ums_thread_context, error } => Self::failed(
                ums_thread_context,
                error,
                ThreadFlags { terminated: None, suspended: None },
            ),
            EntryEvent::FlagRead { class, flag } => Self::failed(
                self->Failed_ums_thread_context,
                self->error,
                self->flags.recorded(class, flag),
            ),
        }
    }

    /// A call that the system is about to make.
    pub fn new() -> (state: Self)
        ensures
            state is New,
    {
        EntryState::New
    }

    /// Whether this can happen now.
    pub fn can_take(&self, event: EntryEvent) -> (can: bool)
        ensures
            can == self.accepts(event),
    {
        match event {
            EntryEvent::Called { reason, activation_payload, .. } => *self == EntryState::New
                && SchedulerEntryCause::can_be_called(reason, activation_payload),
            EntryEvent::Handled(_) => *self == EntryState::Handling,
            EntryEvent::ExecuteFailed { ums_thread_context, error } => *self
                == EntryState::Executing { ums_thread_context } && error != ERROR_SUCCESS,
            EntryEvent::FlagRead { class, .. } => match *self {
                EntryState::Failed { ums_thread_context, error, flags } => error != ERROR_SUCCESS
                    && SchedulerEntryCause::from_execute_error(ums_thread_context, error, flags)
                    == ExecuteError::Query(class),
                _ => false,
            },
        }
    }

    /// Goes on with what is known of a failure to resume a thread.
    fn fail(&mut self, ums_thread_context: usize, error: DWORD, flags: ThreadFlags) -> (step:
        EntryStep)
        requires
            error != ERROR_SUCCESS,
        ensures
            (*final(self), step) == Self::failed(ums_thread_context, error, flags),
    {
        match SchedulerEntryCause::from_execute_error(ums_thread_context, error, flags) {
            ExecuteError::Query(class) => {
                *self = EntryState::Failed { ums_thread_context, error, flags };
                EntryStep::Query { ums_thread_context, class }
            },
            ExecuteError::Entry(cause) => {
                *self = EntryState::Handling;
                EntryStep::Handle(cause)
            },
        }
    }
}

/// Takes what has happened and says what the entry point does next.
pub fn scheduler_entry(state: &mut EntryState, event: EntryEvent) -> (step: EntryStep)
    requires
        old(state).accepts(event),
    ensures
        (*final(state), step) == old(state).step(event),
{
    match event {
        EntryEvent::Called { reason, activation_payload, scheduler_param } => {
            *state = EntryState::Handling;
            EntryStep::Handle(
                SchedulerEntryCause::from_scheduler_entry_args(
                    reason,
                    activation_payload,
                    scheduler_param,
                ),
            )
        },
        EntryEvent::Handled(Some(resumption)) => {
            *state = EntryState::Executing { ums_thread_context: resumption.ums_thread_context };
            EntryStep::Execute(resumption)
        },
        EntryEvent::Handled(None) => {
            *state = EntryState::Over;
            EntryStep::Return
        },
        EntryEvent::ExecuteFailed { ums_thread_context, error } => state.fail(
            ums_thread_context,
            error,
            ThreadFlags::new(),
        ),
        EntryEvent::FlagRead { class, flag } => match *state {
            EntryState::Failed { ums_thread_context, error, mut flags } => {
                flags.record(class, flag);
                state.fail(ums_thread_context, error, flags)
            },
            _ => vstd::pervasive::unreached(),
        },
    }
}

/// A thread that could not be resumed is asked for at most two flags, each
/// once, and then the scheduler handles the cause that the error and the
/// answers give.
pub proof fn law_failure_is_handled(
    ums_thread_context: usize,
    error: DWORD,
    terminated: bool,
    suspended: bool,
)
    requires
        error != ERROR_SUCCESS,
    ensures
        ({
            let cause = crate::cause::execute_error_cause(error, terminated, suspended);
            let handled = (
                EntryState::Handling,
                EntryStep::Handle(SchedulerEntryCause::ThreadReady { ums_thread_context, cause }),
            );
            let executing = EntryState::Executing { ums_thread_context };
            let failure = EntryEvent::ExecuteFailed { ums_thread_context, error };
            let (first, step) = executing.step(failure);
            &&& executing.accepts(failure)
            &&& if let EntryStep::Query { ums_thread_context: asked, class } = step {
                let answer = EntryEvent::FlagRead { class, flag: terminated };
                let (second, step) = first.step(answer);
                &&& asked == ums_thread_context
                &&& class == crate::platform::UmsThreadIsTerminated
                &&& first.accepts(answer)
                &&& if let EntryStep::Query { ums_thread_context: asked, class } = step {
                    let answer = EntryEvent::FlagRead { class, flag: suspended };
                    &&& asked == ums_thread_context
                    &&& class == crate::platform::UmsThreadIsSuspended
                    &&& second.accepts(answer)
                    &&& second.step(answer) == handled
                } else {
                    (second, step) == handled
                }
            } else {
                (first, step) == handled
            }
        }),
{
}

/// What the scheduler wants resumed is what the entry point executes, and
/// nothing else ever is: the same thread, and the same event for the same
/// slot, if there is one. When it wants nothing resumed, the entry point
/// returns, and only then.
pub proof fn law_what_was_decided_is_executed(
    state: EntryState,
    resumption: Resumption,
    event: EntryEvent,
    executed: Resumption,
)
    ensures
        state.step(EntryEvent::Handled(Some(resumption))) == (
            EntryState::Executing { ums_thread_context: resumption.ums_thread_context },
            EntryStep::Execute(resumption),
        ),
        state.step(event).1 == EntryStep::Execute(executed) <==> event == EntryEvent::Handled(
            Some(executed),
        ),
        state.step(event).1 is Return <==> event == EntryEvent::Handled(None),
        state.step(event).0 is Over <==> event == EntryEvent::Handled(None),
{
}

/// What the system tells the entry point is what the scheduler handles: the
/// parameter at the startup, what stopped the thread that was running, and the
/// thread that yielded with its parameter.
pub proof fn law_what_the_system_tells_is_handled(
    state: EntryState,
    activation_payload: usize,
    scheduler_param: usize,
)
    ensures
        ({
            let told = |reason: UMS_SCHEDULER_REASON|
                state.step(EntryEvent::Called { reason, activation_payload, scheduler_param });
            let handled = |cause: SchedulerEntryCause|
                (EntryState::Handling, EntryStep::Handle(cause));
            &&& told(0) == handled(SchedulerEntryCause::Startup { param: scheduler_param })
            &&& activation_payload == 0 ==> told(1) == handled(
                SchedulerEntryCause::ThreadBlocked {
                    cause: crate::cause::ThreadBlockedCause::Trap,
                },
            )
            &&& activation_payload == 1 ==> told(1) == handled(
                SchedulerEntryCause::ThreadBlocked {
                    cause: crate::cause::ThreadBlockedCause::SysCall,
                },
            )
            &&& told(2) == handled(
                SchedulerEntryCause::ThreadReady {
                    ums_thread_context: activation_payload,
                    cause: crate::cause::ThreadReadyCause::Yield { param: scheduler_param },
                },
            )
        }),
{
}

/// What a failure to resume a thread comes to. An error that says to retry
/// makes the thread busy at once. For any other one it is asked first whether
/// the thread has ended. If it has not, it is asked whether the thread is
/// suspended; and if it is neither, the error itself is handled. The thread is
/// always the one that failed.
pub proof fn law_failed_thread_is_asked_for(
    state: EntryState,
    ums_thread_context: usize,
    error: DWORD,
    flag: bool,
)
    ensures
        ({
            let failed = |terminated: Option<bool>, suspended: Option<bool>| EntryState::Failed {
                ums_thread_context,
                error,
                flags: ThreadFlags { terminated, suspended },
            };
            let handled = |cause: crate::cause::ThreadReadyCause|
                (
                    EntryState::Handling,
                    EntryStep::Handle(
                        SchedulerEntryCause::ThreadReady { ums_thread_context, cause },
                    ),
                );
            let failure = state.step(EntryEvent::ExecuteFailed { ums_thread_context, error });
            let is_terminated = failed(None, None).step(EntryEvent::FlagRead { class: 6, flag });
            let is_suspended = failed(Some(false), None).step(
                EntryEvent::FlagRead { class: 5, flag },
            );
            &&& error == 1237 ==> failure == handled(crate::cause::ThreadReadyCause::Busy)
            &&& error != 1237 ==> {
                &&& failure == (
                    failed(None, None),
                    EntryStep::Query { ums_thread_context, class: 6 },
                )
                &&& is_terminated == if flag {
                    handled(crate::cause::ThreadReadyCause::Terminated)
                } else {
                    (
                        failed(Some(false), None),
                        EntryStep::Query { ums_thread_context, class: 5 },
                    )
                }
                &&& flag ==> is_suspended == handled(crate::cause::ThreadReadyCause::Suspended)
                &&& !flag ==> {
                    &&& is_suspended.0 is Handling
                    &&& is_suspended.1 matches EntryStep::Handle(
                        SchedulerEntryCause::ThreadReady {
                            ums_thread_context: told,
                            cause: crate::cause::ThreadReadyCause::ExecuteFailed { error: code },
                        },
                    )
                    &&& told == ums_thread_context
                    &&& code == error || code == error - 0x1_0000_0000
                }
            }
        }),
{
}

/// What can happen when: the call comes first, with a reason that the system
/// has; a cause that is handled comes to an end; the thread that is resumed may
/// fail, with an error; and a flag is read that was asked for.
pub proof fn law_entry_takes_what_answers_it(
    reason: UMS_SCHEDULER_REASON,
    activation_payload: usize,
    scheduler_param: usize,
    resumption: Option<Resumption>,
    ums_thread_context: usize,
    error: DWORD,
    class: UMS_THREAD_INFO_CLASS,
    flag: bool,
    state: EntryState,
)
    ensures
        ({
            let called = EntryEvent::Called { reason, activation_payload, scheduler_param };
            &&& state.accepts(called) <==> state is New && (reason == 0 || reason == 2 || (reason
                == 1 && activation_payload <= 1))
            &&& state.accepts(EntryEvent::Handled(resumption)) <==> state is Handling
            &&& state.accepts(EntryEvent::ExecuteFailed { ums_thread_context, error }) <==> state
                == EntryState::Executing { ums_thread_context } && error != 0
            &&& state.accepts(EntryEvent::FlagRead { class, flag }) <==> {
                &&& state matches EntryState::Failed { error, flags, .. }
                &&& error != 0 && error != 1237
                &&& class == 6 && flags.terminated is None || class == 5 && flags.terminated
                    == Some(false) && flags.suspended is None
            }
        }),
{
}

/// A flag that was read is added to what is known of the thread that failed,
/// and what follows from all of it is done: the scheduler handles the cause, or
/// the next flag of that same thread is asked for, with the error kept.
pub proof fn law_flag_is_added_to_what_is_known(
    ums_thread_context: usize,
    error: DWORD,
    flags: ThreadFlags,
    class: UMS_THREAD_INFO_CLASS,
    flag: bool,
)
    requires
        class == 5 || class == 6,
    ensures
        ({
            let known = if class == 6 {
                ThreadFlags { terminated: Some(flag), suspended: flags.suspended }
            } else {
                ThreadFlags { terminated: flags.terminated, suspended: Some(flag) }
            };
            let failed = EntryState::Failed { ums_thread_context, error, flags };
            let (state, step) = failed.step(EntryEvent::FlagRead { class, flag });
            match crate::cause::execute_error(ums_thread_context, error, known) {
                ExecuteError::Entry(cause) => state is Handling && step == EntryStep::Handle(cause),
                ExecuteError::Query(next) => {
                    &&& state == EntryState::Failed { ums_thread_context, error, flags: known }
                    &&& step == EntryStep::Query { ums_thread_context, class: next }
                },
            }
        }),
{
}

} // verus!
