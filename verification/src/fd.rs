//! Decisions around the raw file descriptors of TAP and TUN devices.

use vstd::prelude::*;

verus! {

/// Whether `fd` can name an open file descriptor: negative values are rejected as invalid input
/// before any system call is made.
pub fn is_valid_raw_fd(fd: i32) -> (r: bool)
    ensures
        r == (fd >= 0),
{
    fd >= 0
}

/// The file status flags that make a descriptor with flags `flags` non-blocking, where
/// `nonblock` is the system's `O_NONBLOCK` bit.
pub fn nonblocking_flags(flags: i32, nonblock: i32) -> (r: i32)
    ensures
        r == flags | nonblock,
{
    flags | nonblock
}

/// Whether the return value of `fcntl` reports failure.
pub fn fcntl_failed(res: i32) -> (r: bool)
    ensures
        r == (res < 0),
{
    res < 0
}

/// The number of bytes that a `read` or `write` system call reports, or `None` when its return
/// value reports failure.
pub fn byte_count(res: isize) -> (r: Option<usize>)
    ensures
        r is None <==> res < 0,
        r matches Some(n) ==> n == res,
{
    if res < 0 {
        None
    } else {
        Some(res as usize)
    }
}

} // verus!
