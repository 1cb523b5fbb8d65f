//! The types and constants of the Windows interface that the scheduler's
//! decisions speak of.
use vstd::prelude::*;

verus! {

/// A truth value that a system call returns: `TRUE` on success.
pub type BOOL = i32;

/// A 32-bit number: an error code, a set of flags, a size.
pub type DWORD = u32;

/// An 8-bit truth value: set when it is not zero.
pub type BOOLEAN = u8;

/// A handle, or the address of an object that the system owns.
pub type HANDLE = usize;

/// Why the system called the scheduler's entry point.
pub type UMS_SCHEDULER_REASON = u32;

/// Which piece of information about a UMS thread is asked for.
pub type UMS_THREAD_INFO_CLASS = u32;

pub const FALSE: BOOL = 0;

pub const TRUE: BOOL = 1;

pub const NULL: HANDLE = 0;

/// What a call that makes a handle may return in place of one: all bits set.
pub const INVALID_HANDLE_VALUE: HANDLE = usize::MAX;

pub const ERROR_SUCCESS: DWORD = 0;

/// The thread could not be resumed yet: try again later.
pub const ERROR_RETRY: DWORD = 1237;

/// An alertable sleep ended because an I/O completion routine ran.
pub const WAIT_IO_COMPLETION: DWORD = 0xC0;

pub const UmsSchedulerStartup: UMS_SCHEDULER_REASON = 0;

pub const UmsSchedulerThreadBlocked: UMS_SCHEDULER_REASON = 1;

pub const UmsSchedulerThreadYield: UMS_SCHEDULER_REASON = 2;

pub const UmsThreadUserContext: UMS_THREAD_INFO_CLASS = 1;

pub const UmsThreadIsSuspended: UMS_THREAD_INFO_CLASS = 5;

pub const UmsThreadIsTerminated: UMS_THREAD_INFO_CLASS = 6;

pub const UMS_VERSION: DWORD = 0x0100;

/// The attribute that makes a new thread a UMS worker thread.
pub const PROC_THREAD_ATTRIBUTE_UMS_THREAD: usize = 0x0003_0006;

/// The stack size of a new thread is what to reserve, not what to commit.
pub const STACK_SIZE_PARAM_IS_A_RESERVATION: DWORD = 0x0001_0000;

/// The numbers by which the library and the system understand each other.
pub proof fn law_numbers_of_the_interface()
    ensures
        FALSE == 0,
        TRUE == 1,
        NULL == 0,
        INVALID_HANDLE_VALUE == usize::MAX,
        ERROR_SUCCESS == 0,
        ERROR_RETRY == 1237,
        WAIT_IO_COMPLETION == 192,
        UmsSchedulerStartup == 0,
        UmsSchedulerThreadBlocked == 1,
        UmsSchedulerThreadYield == 2,
        UmsThreadUserContext == 1,
        UmsThreadIsSuspended == 5,
        UmsThreadIsTerminated == 6,
        UMS_VERSION == 256,
        PROC_THREAD_ATTRIBUTE_UMS_THREAD == 196_614,
        STACK_SIZE_PARAM_IS_A_RESERVATION == 65_536,
{
}

} // verus!
