use vstd::prelude::*;

verus! {

/// Errors raised while executing Java code.
#[derive(Clone, Copy, Debug, PartialEq, Eq, Structural)]
pub enum RuntimeError {
    NullPointerException,
    ArithmeticException,
    StackUnderflow,
    LocalIndexOutOfBounds,
    MethodNotFound,
    NoSuchClass,
    NumberFormatException,
}

/// Errors raised by the thread and monitor machinery.
#[derive(Clone, Copy, Debug, PartialEq, Eq, Structural)]
pub enum ThreadingError {
    IllegalMonitorState,
    ThreadCreationFailed,
    ThreadInterrupted,
}

/// Top-level error of the virtual machine.
#[derive(Clone, Copy, Debug, PartialEq, Eq, Structural)]
pub enum JvmError {
    RuntimeError(RuntimeError),
    ThreadingError(ThreadingError),
}

} // verus!
