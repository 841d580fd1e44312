//! Decoding of system calls.
use vstd::prelude::*;

verus! {

use vstd::utf8::valid_utf8;
use vstd::string::StringSliceAdditionalSpecFns;

pub const SYSCALL_WRITE: usize = 64;
pub const SYSCALL_EXIT: usize = 93;
pub const SYSCALL_YIELD: usize = 124;
pub const SYSCALL_GET_TIME: usize = 169;

/// The file descriptor of standard output.
pub const FD_STDOUT: usize = 1;

/// A system call, as the user program asked for it.
#[derive(Clone, Copy, PartialEq, Eq, Structural)]
pub enum Syscall {
    /// Write `len` bytes at user address `buf` to file `fd`.
    Write { fd: usize, buf: usize, len: usize },
    /// End the program with `exit_code`.
    Exit { exit_code: i32 },
    /// Give up the processor.
    Yield,
    /// Read the time.
    GetTime,
    /// A system call number that the kernel does not know.
    Unsupported { id: usize },
}

/// The system call with number `syscall_id` and registers `args`.
pub fn decode_syscall(syscall_id: usize, args: [usize; 3]) -> (r: Syscall)
    ensures
        r == (if syscall_id == SYSCALL_WRITE {
            Syscall::Write { fd: args@[0], buf: args@[1], len: args@[2] }
        } else if syscall_id == SYSCALL_EXIT {
            Syscall::Exit { exit_code: args@[0] as i32 }
        } else if syscall_id == SYSCALL_YIELD {
            Syscall::Yield
        } else if syscall_id == SYSCALL_GET_TIME {
            Syscall::GetTime
        } else {
            Syscall::Unsupported { id: syscall_id }
        }),
{
    if syscall_id == SYSCALL_WRITE {
        Syscall::Write { fd: args[0], buf: args[1], len: args[2] }
    } else if syscall_id == SYSCALL_EXIT {
        Syscall::Exit { exit_code: args[0] as i32 }
    } else if syscall_id == SYSCALL_YIELD {
        Syscall::Yield
    } else if syscall_id == SYSCALL_GET_TIME {
        Syscall::GetTime
    } else {
        Syscall::Unsupported { id: syscall_id }
    }
}

/// Why `write` refuses a request.
#[derive(Clone, Copy, PartialEq, Eq, Structural)]
pub enum WriteError {
    /// The file is not standard output, the only one that `write` serves.
    UnsupportedFd(usize),
    /// The bytes are not valid UTF-8 text.
    InvalidUtf8,
}

/// The text in `v`, where `v` is valid UTF-8.
///
/// Calls `core::str::from_utf8`. Its documentation says that it gives the
/// string slice whose bytes are `v` when `v` is UTF-8 and an error
/// otherwise; the contract states this with vstd's `valid_utf8`, and the
/// bytes of the text with `spec_bytes`, which vstd's specification of
/// `str::from_utf8_unchecked` uses too.
#[verifier::external_body]
fn str_from_utf8(v: &[u8]) -> (r: Option<&str>)
    ensures
        r is Some <==> valid_utf8(v@),
        r matches Some(s) ==> s.spec_bytes() == v@,
{
    core::str::from_utf8(v).ok()
}

/// What `write` of `bytes` to `fd` prints and returns: the text, and the
/// number of bytes as the call's result. Only standard output is served,
/// and only UTF-8 text.
pub fn prepare_write(fd: usize, bytes: &[u8]) -> (r: Result<(&str, isize), WriteError>)
    ensures
        fd != FD_STDOUT ==> r == Err::<(&str, isize), WriteError>(WriteError::UnsupportedFd(fd)),
        fd == FD_STDOUT && !valid_utf8(bytes@) ==> r == Err::<(&str, isize), WriteError>(WriteError::InvalidUtf8),
        fd == FD_STDOUT && valid_utf8(bytes@) ==> (r matches Ok((text, n)) && text.spec_bytes() == bytes@
            && n == bytes@.len() as isize),
{
    if fd != FD_STDOUT {
        return Err(WriteError::UnsupportedFd(fd));
    }
    match str_from_utf8(bytes) {
        Some(text) => Ok((text, bytes.len() as isize)),
        None => Err(WriteError::InvalidUtf8),
    }
}

} // verus!
