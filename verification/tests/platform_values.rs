use std::io;
use ums::cause::{
    ExecuteError, SchedulerEntryCause, ThreadBlockedCause, ThreadFlags, ThreadReadyCause,
};
use ums::entry::{scheduler_entry, EntryEvent, EntryState, EntryStep};
use ums::info::{
    cast_aligned, get_ums_thread_info, is_aligned, set_ums_thread_info, state_access, StateAccess,
};
use ums::platform::{
    UmsSchedulerStartup, UmsSchedulerThreadBlocked, UmsSchedulerThreadYield, UmsThreadIsSuspended,
    UmsThreadIsTerminated, ERROR_RETRY, FALSE, INVALID_HANDLE_VALUE, NULL, TRUE,
};
use ums::scheduler::Resumption;
use ums::win_result::{WinError, WinResult};
use ums::worker::current_thread_has_io_pending;

#[test]
fn bool_reports_success() {
    assert_eq!(TRUE.ok(), Some(()));
    assert_eq!(FALSE.ok(), None);
    assert!(TRUE.result().is_ok());
    assert!(FALSE.result().is_err());
    TRUE.unwrap();
    FALSE.unwrap_err::<()>();
    assert_eq!(TRUE.ok_or_last_error::<()>(), Ok(()));
    assert_eq!(FALSE.ok_or_last_error::<()>(), Err(()));
    assert!(TRUE.can_be_returned() && FALSE.can_be_returned());
    assert!(!2i32.can_be_returned() && !(-1i32).can_be_returned());
    assert!(NULL.can_be_returned());
}

#[test]
fn handle_reports_success() {
    assert_eq!(WinResult::ok(NULL), None);
    assert_eq!(WinResult::ok(INVALID_HANDLE_VALUE), None);
    assert_eq!(WinResult::ok(0x44usize), Some(0x44));
    assert_eq!(WinResult::unwrap(0x44usize), 0x44);
    assert_eq!(WinResult::result(7usize).ok(), Some(7));
    assert!(WinResult::result(INVALID_HANDLE_VALUE).is_err());
    NULL.unwrap_err::<()>();
}

#[test]
fn last_error_is_one_of_the_system() {
    let error: io::Error = WinError::get_last_error();
    assert!(error.raw_os_error().is_some());
    assert!(FALSE.result().unwrap_err().raw_os_error().is_some());
    let nothing: () = WinError::get_last_error();
    assert_eq!(nothing, ());
}

#[test]
fn entry_arguments_give_the_cause() {
    assert_eq!(
        SchedulerEntryCause::from_scheduler_entry_args(UmsSchedulerStartup, 5, 0x1000),
        SchedulerEntryCause::Startup { param: 0x1000 }
    );
    assert_eq!(
        SchedulerEntryCause::from_scheduler_entry_args(UmsSchedulerThreadBlocked, 0, 0x1000),
        SchedulerEntryCause::ThreadBlocked { cause: ThreadBlockedCause::Trap }
    );
    assert_eq!(
        SchedulerEntryCause::from_scheduler_entry_args(UmsSchedulerThreadBlocked, 1, 0x1000),
        SchedulerEntryCause::ThreadBlocked { cause: ThreadBlockedCause::SysCall }
    );
    assert_eq!(
        SchedulerEntryCause::from_scheduler_entry_args(UmsSchedulerThreadYield, 0x77, 0x2000),
        SchedulerEntryCause::ThreadReady {
            ums_thread_context: 0x77,
            cause: ThreadReadyCause::Yield { param: 0x2000 },
        }
    );
}

fn ready(cause: ThreadReadyCause) -> ExecuteError {
    ExecuteError::Entry(SchedulerEntryCause::ThreadReady { ums_thread_context: 9, cause })
}

#[test]
fn busy_thread_needs_no_question() {
    assert_eq!(
        SchedulerEntryCause::from_execute_error(9, ERROR_RETRY, ThreadFlags::new()),
        ready(ThreadReadyCause::Busy)
    );
}

#[test]
fn execute_error_asks_for_flags_in_order() {
    let mut flags = ThreadFlags::new();
    let from = |flags| SchedulerEntryCause::from_execute_error(9, 5, flags);
    assert_eq!(from(flags), ExecuteError::Query(UmsThreadIsTerminated));
    flags.record(UmsThreadIsTerminated, false);
    assert_eq!(from(flags), ExecuteError::Query(UmsThreadIsSuspended));
    flags.record(UmsThreadIsSuspended, false);
    assert_eq!(from(flags), ready(ThreadReadyCause::ExecuteFailed { error: 5 }));
    flags.record(UmsThreadIsSuspended, true);
    assert_eq!(from(flags), ready(ThreadReadyCause::Suspended));
    flags.record(UmsThreadIsTerminated, true);
    assert_eq!(from(flags), ready(ThreadReadyCause::Terminated));
}

#[test]
fn terminated_thread_needs_one_question() {
    let mut flags = ThreadFlags::new();
    flags.record(UmsThreadIsTerminated, true);
    assert_eq!(
        SchedulerEntryCause::from_execute_error(9, 5, flags),
        ready(ThreadReadyCause::Terminated)
    );
}

#[test]
fn large_error_code_turns_negative() {
    let flags = ThreadFlags { terminated: Some(false), suspended: Some(false) };
    assert_eq!(
        SchedulerEntryCause::from_execute_error(9, 0xC000_0005, flags),
        ready(ThreadReadyCause::ExecuteFailed { error: -1073741819 })
    );
    assert_eq!(
        SchedulerEntryCause::from_execute_error(9, u32::MAX, flags),
        ready(ThreadReadyCause::ExecuteFailed { error: -1 })
    );
}

#[test]
fn thread_flag_defaults_to_unset() {
    assert!(SchedulerEntryCause::get_ums_thread_flag(Ok(1)));
    assert!(SchedulerEntryCause::get_ums_thread_flag(Ok(0xff)));
    assert!(!SchedulerEntryCause::get_ums_thread_flag(Ok(0)));
    assert!(!SchedulerEntryCause::get_ums_thread_flag(Err(())));
}

#[test]
fn entry_point_resumes_until_it_works() {
    let mut state = EntryState::new();
    let mut entry = |event| {
        assert!(state.can_take(event));
        let step = scheduler_entry(&mut state, event);
        assert!(!state.can_take(event));
        step
    };
    let called = EntryEvent::Called {
        reason: UmsSchedulerThreadYield,
        activation_payload: 9,
        scheduler_param: 0x40,
    };
    let thread_ready = |ums_thread_context, cause| {
        EntryStep::Handle(SchedulerEntryCause::ThreadReady { ums_thread_context, cause })
    };
    assert_eq!(entry(called), thread_ready(9, ThreadReadyCause::Yield { param: 0x40 }));
    let resumption = |ums_thread_context| Resumption { write: None, ums_thread_context };
    let failed = |ums_thread_context, error| EntryEvent::ExecuteFailed { ums_thread_context, error };
    let query = |ums_thread_context, class| EntryStep::Query { ums_thread_context, class };
    // The first thread is not ended but suspended.
    assert_eq!(
        entry(EntryEvent::Handled(Some(resumption(9)))),
        EntryStep::Execute(resumption(9))
    );
    assert_eq!(entry(failed(9, 31)), query(9, UmsThreadIsTerminated));
    assert_eq!(
        entry(EntryEvent::FlagRead { class: UmsThreadIsTerminated, flag: false }),
        query(9, UmsThreadIsSuspended)
    );
    assert_eq!(
        entry(EntryEvent::FlagRead { class: UmsThreadIsSuspended, flag: true }),
        thread_ready(9, ThreadReadyCause::Suspended)
    );
    // Of the next one nothing is known yet.
    assert_eq!(
        entry(EntryEvent::Handled(Some(resumption(8)))),
        EntryStep::Execute(resumption(8))
    );
    assert_eq!(entry(failed(8, 31)), query(8, UmsThreadIsTerminated));
    assert_eq!(
        entry(EntryEvent::FlagRead { class: UmsThreadIsTerminated, flag: true }),
        thread_ready(8, ThreadReadyCause::Terminated)
    );
    // A busy one is asked for nothing.
    assert_eq!(
        entry(EntryEvent::Handled(Some(resumption(7)))),
        EntryStep::Execute(resumption(7))
    );
    assert_eq!(entry(failed(7, ERROR_RETRY)), thread_ready(7, ThreadReadyCause::Busy));
    assert_eq!(entry(EntryEvent::Handled(None)), EntryStep::Return);
}

#[test]
fn entry_point_takes_nothing_out_of_turn() {
    let called = |reason, activation_payload| EntryEvent::Called {
        reason,
        activation_payload,
        scheduler_param: 0,
    };
    let new = EntryState::new();
    assert!(new.can_take(called(UmsSchedulerStartup, 7)));
    assert!(new.can_take(called(UmsSchedulerThreadBlocked, 1)));
    assert!(!new.can_take(called(UmsSchedulerThreadBlocked, 2)));
    assert!(!new.can_take(called(3, 0)));
    assert!(!new.can_take(EntryEvent::Handled(None)));
    let executing = EntryState::Executing { ums_thread_context: 9 };
    let failed = |ums_thread_context, error| EntryEvent::ExecuteFailed { ums_thread_context, error };
    assert!(executing.can_take(failed(9, 5)));
    assert!(!executing.can_take(failed(8, 5)));
    assert!(!executing.can_take(failed(9, 0)));
    assert!(!executing.can_take(EntryEvent::FlagRead { class: UmsThreadIsTerminated, flag: true }));
}

#[test]
fn state_is_stored_at_startup_and_loaded_later() {
    let startup = SchedulerEntryCause::Startup { param: 0x5000 };
    let stored = StateAccess::Store { ums_thread_context: 0x60, state: 0x5000 };
    assert_eq!(state_access(0x60, startup).ok(), Some(stored));
    let later = SchedulerEntryCause::ThreadBlocked { cause: ThreadBlockedCause::Trap };
    let loaded = StateAccess::Load { ums_thread_context: 0x60 };
    assert_eq!(state_access(0x60, later).ok(), Some(loaded));
    assert!(state_access(NULL, later).is_err());
    assert!(state_access(INVALID_HANDLE_VALUE, startup).is_err());
}

#[test]
fn thread_info_is_what_the_call_wrote() {
    assert_eq!(get_ums_thread_info::<u8, ()>(TRUE, 1, 1, 7), Ok(7));
    assert_eq!(get_ums_thread_info::<u8, ()>(FALSE, 1, 0, 7), Err(()));
    assert!(get_ums_thread_info::<usize, io::Error>(FALSE, 8, 0, 7).is_err());
    assert_eq!(set_ums_thread_info::<()>(TRUE), Ok(()));
    assert_eq!(set_ums_thread_info::<()>(FALSE), Err(()));
}

#[test]
fn aligned_addresses_are_cast() {
    assert!(is_aligned(0x1000, 8));
    assert!(is_aligned(0, 64));
    assert!(is_aligned(3, 1));
    assert!(!is_aligned(0x1004, 8));
    assert!(!is_aligned(usize::MAX, 2));
    assert_eq!(cast_aligned(0x1008, 8), 0x1008);
}

#[test]
fn io_pending_is_read_from_the_flag() {
    assert_eq!(current_thread_has_io_pending(TRUE, TRUE).ok(), Some(true));
    assert_eq!(current_thread_has_io_pending(TRUE, FALSE).ok(), Some(false));
    assert!(current_thread_has_io_pending(FALSE, FALSE).is_err());
}
