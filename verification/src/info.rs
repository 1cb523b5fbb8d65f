//! What the system keeps about a UMS thread, and the checks on what it is
//! handed.
use crate::cause::SchedulerEntryCause;
use crate::platform::{BOOL, DWORD, HANDLE, TRUE};
use crate::win_result::{WinError, WinResult};
use std::io;
use vstd::prelude::*;

verus! {

/// Where the scheduler finds its state.
#[derive(Copy, Clone, Debug, PartialEq, Eq, Structural)]
pub enum StateAccess {
    /// It is at `state`, which is to be kept with the scheduler's thread.
    Store { ums_thread_context: usize, state: usize },
    /// Its address is kept with the scheduler's thread.
    Load { ums_thread_context: usize },
}

/// Says where the scheduler, which runs on the thread `current` and was
/// entered for `cause`, finds its state.
pub fn state_access(current: HANDLE, cause: SchedulerEntryCause) -> (access: Result<
    StateAccess,
    io::Error,
>)
    ensures
        match current.success() {
            Some(ums_thread_context) => access == Ok::<StateAccess, io::Error>(
                match cause {
                    SchedulerEntryCause::Startup { param } => StateAccess::Store {
                        ums_thread_context,
                        state: param,
                    },
                    _ => StateAccess::Load { ums_thread_context },
                },
            ),
            None => access matches Err(e) && crate::win_result::is_last_error(e),
        },
{
    match current.result() {
        Ok(ums_thread_context) => Ok(
            match cause {
                SchedulerEntryCause::Startup { param } => StateAccess::Store {
                    ums_thread_context,
                    state: param,
                },
                _ => StateAccess::Load { ums_thread_context },
            },
        ),
        Err(e) => Err(e),
    }
}

/// Reads the outcome of a question about a thread: `returned` is what the
/// call returned; when it succeeded, it wrote `info`, of which it was offered
/// `info_size_in` bytes and filled `info_size_out`.
pub fn get_ums_thread_info<T, E: WinError>(
    returned: BOOL,
    info_size_in: DWORD,
    info_size_out: DWORD,
    info: T,
) -> (answer: Result<T, E>)
    requires
        returned.returnable(),
        returned == TRUE ==> info_size_in == info_size_out,
    ensures
        returned == TRUE ==> answer == Ok::<T, E>(info),
        returned != TRUE ==> (answer matches Err(e) && crate::win_result::is_last_error(e)),
{
    match returned.ok_or_last_error::<E>() {
        Ok(()) => Ok(info),
        Err(e) => Err(e),
    }
}

/// Reads the outcome of a call that keeps something with a thread.
pub fn set_ums_thread_info<E: WinError>(returned: BOOL) -> (outcome: Result<(), E>)
    requires
        returned.returnable(),
    ensures
        returned == TRUE ==> outcome == Ok::<(), E>(()),
        returned != TRUE ==> (outcome matches Err(e) && crate::win_result::is_last_error(e)),
{
    returned.ok_or_last_error::<E>()
}

/// Whether `align` can be the alignment of a type: a power of two.
pub open spec fn is_alignment(align: usize) -> bool {
    exists|n: nat| n < usize::BITS && align == #[trigger] vstd::arithmetic::power2::pow2(n)
}

/// Whether the address has none of the bits below the alignment set: for a
/// power of two, whether it is a multiple of it.
pub fn is_aligned(address: usize, align: usize) -> (aligned: bool)
    requires
        align > 0,
    ensures
        aligned == (address & (align - 1) as usize == 0),
        is_alignment(align) ==> aligned == (address % align == 0),
{
    let mask: usize = align - 1;
    proof {
        if is_alignment(align) {
            let n = choose|n: nat|
                n < usize::BITS && align == #[trigger] vstd::arithmetic::power2::pow2(n);
            vstd::bits::lemma_usize_low_bits_mask_is_mod(address, n);
            assert(mask == vstd::bits::low_bits_mask(n) as usize);
        }
    }
    address & mask == 0
}

/// The address as one of something with this alignment, which it must have.
pub fn cast_aligned(address: usize, align: usize) -> (cast: usize)
    requires
        align > 0,
        address & (align - 1) as usize == 0,
    ensures
        cast == address,
{
    address
}

} // verus!
