//! The host's error taxonomy and the suspend signals of the resumable call.
use vstd::prelude::*;

verus! {

/// An error raised by the host: at link time, by a syscall on bad guest
/// input, or by the executor.
#[derive(Clone, Copy, Debug, PartialEq, Eq)]
pub enum Error {
    /// The module exports no linear memory under the required name.
    NoMemory,
    /// The module exports no function table under the required name, or the
    /// table does not hold function references.
    NoFunctionTable,
    /// The function table slot that the guest named is empty.
    NullFunction,
    /// A guest value does not stand for a value of the named host type.
    InvalidValue(&'static str),
    /// The guest memory range `[start, start + len)` is not valid UTF-8; its
    /// first `valid_up_to` bytes are.
    InvalidUtf8 { start: usize, len: usize, valid_up_to: usize },
    /// The guest memory range `[start, end)` lies outside guest memory.
    InvalidMemoryRange { start: usize, end: usize },
    /// A log level outside the five known ones.
    InvalidLogLevel(u32),
    /// A handle that names no live binary resource.
    InvalidId(i32),
    /// The scheduler's task pool is full.
    TooManyTasks,
    /// A critical section was released that was never acquired.
    MismatchedCriticalSection,
    /// The guest reported a panic.
    Panicked,
}

/// Why a guest call suspended: not an error, but a request to the executor.
#[derive(Clone, Copy, Debug, PartialEq, Eq, Structural)]
pub enum PollRequest {
    /// The guest waits until at least one registration has been woken.
    Wait,
    /// The guest polls for registrations that are ready.
    Poll,
}

/// The one suspend signal of the single-request protocol: the guest waits
/// for an event.
#[derive(Clone, Copy, Debug, PartialEq, Eq, Structural)]
pub enum AsyncEvent {
    Wait,
}

} // verus!
