//! Why the scheduler was entered.
use crate::platform::{
    UmsSchedulerStartup, UmsSchedulerThreadBlocked, UmsSchedulerThreadYield, UmsThreadIsSuspended,
    UmsThreadIsTerminated, BOOLEAN, DWORD, ERROR_RETRY, ERROR_SUCCESS, UMS_SCHEDULER_REASON,
    UMS_THREAD_INFO_CLASS,
};
use vstd::prelude::*;

verus! {

/// What stopped a thread that was running.
#[derive(Copy, Clone, Debug, PartialEq, Eq, Structural)]
pub enum ThreadBlockedCause {
    Trap,
    SysCall,
}

/// Why a thread is ready to run.
#[derive(Copy, Clone, Debug, PartialEq, Eq, Structural)]
pub enum ThreadReadyCause {
    /// The thread yielded; `param` is the address of its event slot.
    Yield { param: usize },
    /// The thread could not be resumed yet.
    Busy,
    /// The thread is suspended.
    Suspended,
    /// The thread has ended.
    Terminated,
    /// The thread could not be resumed; `error` is the system's error code,
    /// in the signed form that `std::io::Error::from_raw_os_error` takes.
    ExecuteFailed { error: i32 },
}

/// Why the scheduler was entered.
#[allow(inconsistent_fields)]
#[derive(Copy, Clone, Debug, PartialEq, Eq, Structural)]
pub enum SchedulerEntryCause {
    /// For the first time; `param` is the address of the scheduler's state.
    Startup { param: usize },
    /// The thread that was running stopped.
    ThreadBlocked { cause: ThreadBlockedCause },
    /// A thread is ready to run, or should be.
    ThreadReady { ums_thread_context: usize, cause: ThreadReadyCause },
}

/// What has been asked so far about a thread that could not be resumed.
#[derive(Copy, Clone, Debug, PartialEq, Eq, Structural)]
pub struct ThreadFlags {
    pub terminated: Option<bool>,
    pub suspended: Option<bool>,
}

/// What is known of the failure to resume a thread.
#[derive(Copy, Clone, Debug, PartialEq, Eq, Structural)]
pub enum ExecuteError {
    /// This flag of the thread decides and has to be asked for.
    Query(UMS_THREAD_INFO_CLASS),
    /// The scheduler is to be entered for this cause.
    Entry(SchedulerEntryCause),
}

/// Whether the system calls the entry point with this reason and payload.
pub open spec fn entry_args_valid(reason: UMS_SCHEDULER_REASON, activation_payload: usize) -> bool {
    ||| reason == UmsSchedulerStartup
    ||| reason == UmsSchedulerThreadBlocked && activation_payload <= 1
    ||| reason == UmsSchedulerThreadYield
}

/// The cause for which the system calls the entry point.
pub open spec fn entry_cause(
    reason: UMS_SCHEDULER_REASON,
    activation_payload: usize,
    scheduler_param: usize,
) -> SchedulerEntryCause {
    if reason == UmsSchedulerStartup {
        SchedulerEntryCause::Startup { param: scheduler_param }
    } else if reason == UmsSchedulerThreadBlocked {
        SchedulerEntryCause::ThreadBlocked {
            cause: if activation_payload == 0 {
                ThreadBlockedCause::Trap
            } else {
                ThreadBlockedCause::SysCall
            },
        }
    } else {
        SchedulerEntryCause::ThreadReady {
            ums_thread_context: activation_payload,
            cause: ThreadReadyCause::Yield { param: scheduler_param },
        }
    }
}

/// The signed number with the same 32 bits as an error code.
pub open spec fn signed_code(code: DWORD) -> int {
    if code <= i32::MAX {
        code as int
    } else {
        code - 0x1_0000_0000
    }
}

/// What a failure to resume a thread means, given what the thread's flags are.
pub open spec fn execute_error_cause(
    error: DWORD,
    terminated: bool,
    suspended: bool,
) -> ThreadReadyCause {
    if error == ERROR_RETRY {
        ThreadReadyCause::Busy
    } else if terminated {
        ThreadReadyCause::Terminated
    } else if suspended {
        ThreadReadyCause::Suspended
    } else {
        ThreadReadyCause::ExecuteFailed { error: signed_code(error) as i32 }
    }
}

/// What is known of the failure to resume a thread: the cause, or the first
/// of the thread's flags that decides and is not known.
pub open spec fn execute_error(
    ums_thread_context: usize,
    error: DWORD,
    flags: ThreadFlags,
) -> ExecuteError {
    if error != ERROR_RETRY && flags.terminated is None {
        ExecuteError::Query(UmsThreadIsTerminated)
    } else if error != ERROR_RETRY && flags.terminated == Some(false) && flags.suspended is None {
        ExecuteError::Query(UmsThreadIsSuspended)
    } else {
        ExecuteError::Entry(
            SchedulerEntryCause::ThreadReady {
                ums_thread_context,
                cause: execute_error_cause(
                    error,
                    flags.terminated == Some(true),
                    flags.suspended == Some(true),
                ),
            },
        )
    }
}

impl ThreadFlags {
    /// Nothing has been asked yet.
    pub fn new() -> (flags: Self)
        ensures
            flags.terminated is None,
            flags.suspended is None,
    {
        ThreadFlags { terminated: None, suspended: None }
    }

    pub open spec fn recorded(self, class: UMS_THREAD_INFO_CLASS, flag: bool) -> Self {
        if class == UmsThreadIsTerminated {
            ThreadFlags { terminated: Some(flag), ..self }
        } else {
            ThreadFlags { suspended: Some(flag), ..self }
        }
    }

    /// Notes the answer for the flag `class`.
    pub fn record(&mut self, class: UMS_THREAD_INFO_CLASS, flag: bool)
        requires
            class == UmsThreadIsTerminated || class == UmsThreadIsSuspended,
        ensures
            *final(self) == old(self).recorded(class, flag),
    {
        if class == UmsThreadIsTerminated {
            self.terminated = Some(flag);
        } else {
            self.suspended = Some(flag);
        }
    }
}

impl SchedulerEntryCause {
    /// Whether the system calls the entry point with this reason and payload.
    pub fn can_be_called(reason: UMS_SCHEDULER_REASON, activation_payload: usize) -> (can: bool)
        ensures
            can == entry_args_valid(reason, activation_payload),
    {
        reason == UmsSchedulerStartup || reason == UmsSchedulerThreadYield || (reason
            == UmsSchedulerThreadBlocked && activation_payload <= 1)
    }

    /// Reads the arguments of the scheduler's entry point.
    pub fn from_scheduler_entry_args(
        reason: UMS_SCHEDULER_REASON,
        activation_payload: usize,
        scheduler_param: usize,
    ) -> (cause: Self)
        requires
            entry_args_valid(reason, activation_payload),
        ensures
            cause == entry_cause(reason, activation_payload, scheduler_param),
    {
        if reason == UmsSchedulerStartup {
            SchedulerEntryCause::Startup { param: scheduler_param }
        } else if reason == UmsSchedulerThreadBlocked {
            if activation_payload == 0 {
                SchedulerEntryCause::ThreadBlocked { cause: ThreadBlockedCause::Trap }
            } else {
                SchedulerEntryCause::ThreadBlocked { cause: ThreadBlockedCause::SysCall }
            }
        } else {
            SchedulerEntryCause::ThreadReady {
                ums_thread_context: activation_payload,
                cause: ThreadReadyCause::Yield { param: scheduler_param },
            }
        }
    }

    /// Reads the error with which a thread could not be resumed. Where a flag
    /// of the thread decides that is not known yet, it asks for that flag:
    /// first whether the thread has ended, then whether it is suspended.
    pub fn from_execute_error(
        ums_thread_context: usize,
        error: DWORD,
        flags: ThreadFlags,
    ) -> (known: ExecuteError)
        requires
            error != ERROR_SUCCESS,
        ensures
            known == execute_error(ums_thread_context, error, flags),
    {
        let cause: ThreadReadyCause = if error == ERROR_RETRY {
            ThreadReadyCause::Busy
        } else {
            match flags.terminated {
                None => {
                    return ExecuteError::Query(UmsThreadIsTerminated);
                },
                Some(true) => ThreadReadyCause::Terminated,
                Some(false) => match flags.suspended {
                    None => {
                        return ExecuteError::Query(UmsThreadIsSuspended);
                    },
                    Some(true) => ThreadReadyCause::Suspended,
                    Some(false) => {
                        assert(error > 0x7fff_ffff ==> error as i32 == error - 0x1_0000_0000)
                            by (bit_vector);
                        ThreadReadyCause::ExecuteFailed { error: error as i32 }
                    },
                },
            }
        };
        ExecuteError::Entry(SchedulerEntryCause::ThreadReady { ums_thread_context, cause })
    }

    /// Reads the answer to a question for a thread's flag. A flag that could
    /// not be had counts as not set.
    pub fn get_ums_thread_flag(info: Result<BOOLEAN, ()>) -> (flag: bool)
        ensures
            flag == (info matches Ok(f) && f != 0),
    {
        match info {
            Ok(flag) => flag != 0,
            Err(()) => false,
        }
    }
}

/// Two questions at most settle why a thread could not be resumed, and the
/// cause is the one that the answers give: that the thread has ended counts
/// before that it is suspended.
pub proof fn law_execute_error_is_settled(
    ums_thread_context: usize,
    error: DWORD,
    terminated: bool,
    suspended: bool,
)
    requires
        error != ERROR_SUCCESS,
    ensures
        ({
            let unknown = ThreadFlags { terminated: None, suspended: None };
            let first = unknown.recorded(UmsThreadIsTerminated, terminated);
            let second = first.recorded(UmsThreadIsSuspended, suspended);
            let settled = ExecuteError::Entry(
                SchedulerEntryCause::ThreadReady {
                    ums_thread_context,
                    cause: execute_error_cause(error, terminated, suspended),
                },
            );
            if error == ERROR_RETRY {
                execute_error(ums_thread_context, error, unknown) == settled
            } else {
                &&& execute_error(ums_thread_context, error, unknown) == ExecuteError::Query(
                    UmsThreadIsTerminated,
                )
                &&& if terminated {
                    execute_error(ums_thread_context, error, first) == settled
                } else {
                    &&& execute_error(ums_thread_context, error, first) == ExecuteError::Query(
                        UmsThreadIsSuspended,
                    )
                    &&& execute_error(ums_thread_context, error, second) == settled
                }
            }
        }),
{
}

/// What a failure to resume a thread means, and when it is known. An error that
/// says to retry makes the thread busy. Otherwise a thread that has ended has
/// ended, whatever else is known; one that has not and is suspended is
/// suspended; and one that is neither failed, with the error. What decides and
/// is not known is asked for. The thread is always the one that failed.
pub proof fn law_execute_error_by_what_is_known(
    ums_thread_context: usize,
    error: DWORD,
    flags: ThreadFlags,
)
    ensures
        ({
            let known = execute_error(ums_thread_context, error, flags);
            if error != 1237 && flags.terminated is None {
                known == ExecuteError::Query(6)
            } else if error != 1237 && flags.terminated == Some(false) && flags.suspended is None {
                known == ExecuteError::Query(5)
            } else {
                &&& known matches ExecuteError::Entry(
                    SchedulerEntryCause::ThreadReady { ums_thread_context: thread, cause },
                )
                &&& thread == ums_thread_context
                &&& cause is Busy <==> error == 1237
                &&& cause is Terminated <==> error != 1237 && flags.terminated == Some(true)
                &&& cause is Suspended <==> error != 1237 && flags.terminated == Some(false)
                    && flags.suspended == Some(true)
                &&& cause is ExecuteFailed <==> error != 1237 && flags.terminated == Some(false)
                    && flags.suspended == Some(false)
                &&& cause matches ThreadReadyCause::ExecuteFailed { error: code } ==> code == error
                    || code == error - 0x1_0000_0000
            }
        }),
{
    let cause = execute_error_cause(
        error,
        flags.terminated == Some(true),
        flags.suspended == Some(true),
    );
    if let Some(terminated) = flags.terminated {
        assert((flags.terminated == Some(true)) == terminated);
    }
    if let Some(suspended) = flags.suspended {
        assert((flags.suspended == Some(true)) == suspended);
    }
    assert(error == ERROR_RETRY ==> cause is Busy);
}

/// An error code and its signed form are the same 32 bits: they are equal, or
/// the code is too large for the signed form and they differ by two to the
/// power of 32.
pub proof fn law_error_code_keeps_its_bits(code: DWORD)
    ensures
        -0x8000_0000 <= signed_code(code) < 0x8000_0000,
        code < 0x8000_0000 ==> signed_code(code) == code,
        code >= 0x8000_0000 ==> signed_code(code) + 0x1_0000_0000 == code,
{
}

/// An answer is noted for the flag that was asked for, and for no other.
pub proof fn law_answer_is_noted_for_its_flag(flags: ThreadFlags, flag: bool)
    ensures
        flags.recorded(6, flag).terminated == Some(flag),
        flags.recorded(6, flag).suspended == flags.suspended,
        flags.recorded(5, flag).suspended == Some(flag),
        flags.recorded(5, flag).terminated == flags.terminated,
{
}

/// What the entry point's arguments say, and which of them the system gives:
/// at the startup the parameter, for a thread that stopped the cause by its
/// number, and for a thread that yielded the thread and its parameter.
pub proof fn law_entry_arguments_are_told_apart(
    reason: UMS_SCHEDULER_REASON,
    activation_payload: usize,
    scheduler_param: usize,
)
    ensures
        entry_args_valid(reason, activation_payload) <==> reason == 0 || reason == 2 || (reason == 1
            && activation_payload <= 1),
        entry_args_valid(reason, activation_payload) ==> ({
            let cause = entry_cause(reason, activation_payload, scheduler_param);
            &&& cause == SchedulerEntryCause::Startup { param: scheduler_param } <==> reason == 0
            &&& cause == SchedulerEntryCause::ThreadBlocked { cause: ThreadBlockedCause::Trap }
                <==> reason == 1 && activation_payload == 0
            &&& cause == SchedulerEntryCause::ThreadBlocked { cause: ThreadBlockedCause::SysCall }
                <==> reason == 1 && activation_payload == 1
            &&& cause == SchedulerEntryCause::ThreadReady {
                ums_thread_context: activation_payload,
                cause: ThreadReadyCause::Yield { param: scheduler_param },
            } <==> reason == 2
        }),
{
}

} // verus!
