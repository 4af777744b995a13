//! Errno-checked syscall results, the two return contexts of `fork`, and the
//! POSIX wait-status encoding.
//!
//! The system calls themselves (`fork`, `waitpid`, `setpgid`, `kill`,
//! `getpid`) are made by the embedding binary; what stands here is the logic
//! that interprets their integer results.

use vstd::prelude::*;

verus! {

/// A failed system call, carrying the errno the OS left behind.
#[derive(Debug, Clone, Copy, PartialEq, Eq, Structural)]
pub struct SysError {
    /// The OS error number.
    pub errno: i32,
}

/// Relies on `std::io::Error::last_os_error`: the errno left by the most
/// recent failed system call on this thread.  Nothing is promised of the
/// value.
#[verifier::external_body]
fn last_errno() -> i32 {
    std::io::Error::last_os_error().raw_os_error().unwrap_or(0)
}

/// Checks a raw system-call return value: `-1` means failure, to be explained
/// by errno; anything else is the successful result itself.
pub fn syscall(r: i32) -> (res: Result<i32, SysError>)
    ensures
        r == -1 <==> res is Err,
        res matches Ok(v) ==> v == r,
{
    if r == -1 {
        Err(SysError { errno: last_errno() })
    } else {
        Ok(r)
    }
}

/// The two return contexts of `fork`: in the parent, with the child's pid; or
/// in the freshly created child.
#[derive(Debug, Clone, Copy, PartialEq, Eq, Structural)]
pub enum ForkResult {
    /// Still the calling process; the payload is the new child's pid.
    Parent(i32),
    /// The new process.
    Child,
}

impl ForkResult {
    /// Reads the pid that `fork` returned: zero marks the child's return
    /// context, anything else is the child's pid as seen by the parent.
    pub fn new(pid: i32) -> (r: ForkResult)
        ensures
            pid == 0 ==> r == ForkResult::Child,
            pid != 0 ==> r == ForkResult::Parent(pid),
    {
        if pid == 0 {
            ForkResult::Child
        } else {
            ForkResult::Parent(pid)
        }
    }
}

/// Whether a wait status reports a normal exit: the low seven bits are zero.
/// This is the POSIX encoding that `WIFEXITED` reads.
pub open spec fn spec_status_exited(status: i32) -> bool {
    status & 0x7f == 0
}

/// Whether a wait status reports a child killed by a signal: the low seven
/// bits are neither zero (a normal exit) nor all ones (a stopped child).
/// This is the POSIX encoding that `WIFSIGNALED` reads.
pub open spec fn spec_status_signaled(status: i32) -> bool {
    status & 0x7f != 0 && status & 0x7f != 0x7f
}

/// Reports whether the wait status marks a normal exit.
pub fn status_exited(status: i32) -> (r: bool)
    ensures
        r == spec_status_exited(status),
{
    status & 0x7f == 0
}

/// Reports whether the wait status marks a child killed by a signal.
pub fn status_signaled(status: i32) -> (r: bool)
    ensures
        r == spec_status_signaled(status),
{
    status & 0x7f != 0 && status & 0x7f != 0x7f
}

} // verus!
