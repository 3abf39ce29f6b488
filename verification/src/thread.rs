use vstd::prelude::*;

use crate::errors::ErrorKind;
use crate::errors::ThreadingError;
use crate::errors::ThreadingResult;

verus! {

/// Asks the OS to pin every page this process has mapped, and every page
/// it will map, into physical memory, so no page fault can stall a
/// latency-sensitive thread. To be called once, early, by the process's
/// startup path, before any real-time thread is spawned; repeated calls
/// are not promised to be idempotent.
pub fn lock_memory() -> (r: ThreadingResult<()>)
    ensures
        r matches Err(e) ==> e.kind == ErrorKind::MemoryLockFailed && e.code != 0,
{
    let code = mlockall_current_future();
    if code == 0 {
        Ok(())
    } else {
        Err(ThreadingError::new(ErrorKind::MemoryLockFailed, code))
    }
}

/// Judges the OS thread-creation call from the code it returned: success
/// exactly when the code is 0; any other code becomes the spawn error,
/// preserving the code. On that path no thread was created and the work
/// envelope is still the caller's to reclaim.
pub fn spawn_result(code: i32) -> (r: ThreadingResult<()>)
    ensures
        code == 0 <==> r is Ok,
        r matches Err(e) ==> e.kind == ErrorKind::ThreadSpawnFailed && e.code == code,
{
    if code == 0 {
        Ok(())
    } else {
        Err(ThreadingError::new(ErrorKind::ThreadSpawnFailed, code))
    }
}

/// Judges the OS join primitive from the code it returned together with
/// the value the joined thread handed back: exactly when the code is 0,
/// that value — unchanged — is the result; any other code becomes the
/// join error, preserving the code.
pub fn join_result<T>(code: i32, value: T) -> (r: ThreadingResult<T>)
    ensures
        code == 0 <==> r is Ok,
        r matches Ok(v) ==> v == value,
        r matches Err(e) ==> e.kind == ErrorKind::ThreadJoinFailed && e.code == code,
{
    if code == 0 {
        Ok(value)
    } else {
        Err(ThreadingError::new(ErrorKind::ThreadJoinFailed, code))
    }
}

/// Relies on nix::sys::mman::mlockall with MCL_CURRENT | MCL_FUTURE:
/// requests that all current and future pages of this process be locked
/// into RAM; yields 0 on success, else the OS error code.
#[verifier::external_body]
fn mlockall_current_future() -> (r: i32) {
    let flags = nix::sys::mman::MlockAllFlags::MCL_CURRENT
        | nix::sys::mman::MlockAllFlags::MCL_FUTURE;
    match nix::sys::mman::mlockall(flags) {
        Ok(()) => 0,
        Err(e) => e as i32,
    }
}

} // verus!
