use vstd::prelude::*;
use crate::runtime::error::{JvmError, RuntimeError};
use crate::runtime::value::Value;

verus! {

/// An activation record: local variables and the operand stack.
pub struct Frame {
    pub locals: Vec<Value>,
    pub stack: Vec<Value>,
}

/// `new` is `old` with `v` pushed on the operand stack.
pub open spec fn pushed(old: Frame, new: Frame, v: Value) -> bool {
    new.locals@ == old.locals@ && new.stack@ == old.stack@.push(v)
}

/// `new` holds the same locals and operand stack as `old`.
pub open spec fn same_frame(old: Frame, new: Frame) -> bool {
    new.locals@ == old.locals@ && new.stack@ == old.stack@
}

/// The local in slot `i`, if there is one.
pub open spec fn local_at(f: Frame, i: int) -> Option<Value> {
    if 0 <= i < f.locals@.len() {
        Some(f.locals@[i])
    } else {
        None
    }
}

pub open spec fn local_error() -> JvmError {
    JvmError::RuntimeError(RuntimeError::LocalIndexOutOfBounds)
}

pub open spec fn underflow_error() -> JvmError {
    JvmError::RuntimeError(RuntimeError::StackUnderflow)
}

impl Frame {
    pub fn new(locals: Vec<Value>) -> (f: Frame)
        ensures
            f.locals@ == locals@,
            f.stack@.len() == 0,
    {
        Frame { locals, stack: Vec::new() }
    }

    /// The local in slot `i`, or an error when there is no such slot.
    pub fn get_local(&self, i: usize) -> (r: Result<Value, JvmError>)
        ensures
            i < self.locals@.len() ==> r == Ok::<Value, JvmError>(self.locals@[i as int]),
            i >= self.locals@.len() ==> r == Err::<Value, JvmError>(local_error()),
    {
        if i < self.locals.len() {
            Ok(self.locals[i])
        } else {
            Err(JvmError::RuntimeError(RuntimeError::LocalIndexOutOfBounds))
        }
    }

    /// Stores `v` in slot `i`, or fails when there is no such slot.
    pub fn set_local(&mut self, i: usize, v: Value) -> (r: Result<(), JvmError>)
        ensures
            i < old(self).locals@.len() ==> r is Ok && final(self).locals@ == old(
                self,
            ).locals@.update(i as int, v),
            i >= old(self).locals@.len() ==> r == Err::<(), JvmError>(local_error())
                && final(self).locals@ == old(self).locals@,
            final(self).stack@ == old(self).stack@,
    {
        if i < self.locals.len() {
            self.locals.set(i, v);
            Ok(())
        } else {
            Err(JvmError::RuntimeError(RuntimeError::LocalIndexOutOfBounds))
        }
    }

    /// Pushes `v` on the operand stack.
    pub fn push(&mut self, v: Value)
        ensures
            pushed(*old(self), *final(self), v),
    {
        self.stack.push(v);
    }

    /// Pops the top of the operand stack, or fails on an empty stack.
    pub fn pop(&mut self) -> (r: Result<Value, JvmError>)
        ensures
            final(self).locals@ == old(self).locals@,
            old(self).stack@.len() == 0 ==> r == Err::<Value, JvmError>(underflow_error())
                && final(self).stack@ == old(self).stack@,
            old(self).stack@.len() > 0 ==> r == Ok::<Value, JvmError>(old(self).stack@.last())
                && final(self).stack@ == old(self).stack@.drop_last(),
    {
        match self.stack.pop() {
            Some(v) => Ok(v),
            None => Err(JvmError::RuntimeError(RuntimeError::StackUnderflow)),
        }
    }
}

} // verus!

verus! {

/// The call stack of one Java thread.
pub struct JvmStack {
    pub frames: Vec<Frame>,
}

impl JvmStack {
    pub fn new() -> (s: JvmStack)
        ensures
            s.frames@.len() == 0,
    {
        JvmStack { frames: Vec::new() }
    }

    /// Pushes a new activation record.
    pub fn push(&mut self, frame: Frame)
        ensures
            final(self).frames@ == old(self).frames@.push(frame),
    {
        self.frames.push(frame);
    }

    pub fn depth(&self) -> (n: usize)
        ensures
            n == self.frames@.len(),
    {
        self.frames.len()
    }
}

} // verus!
