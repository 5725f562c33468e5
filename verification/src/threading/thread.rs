use vstd::prelude::*;
use crate::runtime::error::{JvmError, ThreadingError};
use crate::runtime::frame::{Frame, JvmStack};

verus! {

/// Life-cycle states of a Java thread.
#[derive(Debug, Clone, Copy, PartialEq, Eq, Structural)]
pub enum ThreadState {
    New,
    Runnable,
    Running,
    Blocked,
    Waiting,
    TimedWaiting,
    Terminated,
}

/// Java thread priorities, from lowest to highest.
#[derive(Debug, Clone, Copy, PartialEq, Eq, Structural)]
pub enum ThreadPriority {
    Min,
    Low,
    Normal,
    High,
    Max,
}

pub open spec fn priority_level(p: ThreadPriority) -> int {
    match p {
        ThreadPriority::Min => 1,
        ThreadPriority::Low => 2,
        ThreadPriority::Normal => 5,
        ThreadPriority::High => 8,
        ThreadPriority::Max => 10,
    }
}

impl ThreadPriority {
    /// The Java priority number: 1, 2, 5, 8 or 10.
    pub fn value(&self) -> (v: i32)
        ensures
            v == priority_level(*self),
    {
        match *self {
            ThreadPriority::Min => 1,
            ThreadPriority::Low => 2,
            ThreadPriority::Normal => 5,
            ThreadPriority::High => 8,
            ThreadPriority::Max => 10,
        }
    }
}

/// A Java thread: identity, state, priority and its own call stack.
pub struct Thread {
    id: usize,
    name: String,
    state: ThreadState,
    priority: ThreadPriority,
    stack: JvmStack,
    monitor: Option<usize>,
}

impl Thread {
    pub closed spec fn spec_id(&self) -> usize {
        self.id
    }

    pub closed spec fn spec_name(&self) -> Seq<char> {
        self.name@
    }

    pub closed spec fn spec_state(&self) -> ThreadState {
        self.state
    }

    pub closed spec fn spec_priority(&self) -> ThreadPriority {
        self.priority
    }

    pub closed spec fn spec_stack(&self) -> Seq<Frame> {
        self.stack.frames@
    }

    pub closed spec fn spec_monitor(&self) -> Option<usize> {
        self.monitor
    }

    /// The parts that a state change leaves alone.
    pub open spec fn same_except_state(&self, other: &Thread) -> bool {
        &&& self.spec_id() == other.spec_id()
        &&& self.spec_name() == other.spec_name()
        &&& self.spec_priority() == other.spec_priority()
        &&& self.spec_stack() == other.spec_stack()
        &&& self.spec_monitor() == other.spec_monitor()
    }

    pub fn new(id: usize, name: String) -> (t: Thread)
        ensures
            t.spec_id() == id,
            t.spec_name() == name@,
            t.spec_state() == ThreadState::New,
            t.spec_priority() == ThreadPriority::Normal,
            t.spec_stack().len() == 0,
            t.spec_monitor() is None,
    {
        Thread {
            id,
            name,
            state: ThreadState::New,
            priority: ThreadPriority::Normal,
            stack: JvmStack::new(),
            monitor: None,
        }
    }

    /// Starts a new thread on `entry_frame`; only a thread in state `New` can start.
    pub fn start(&mut self, entry_frame: Frame) -> (r: Result<(), JvmError>)
        ensures
            old(self).spec_state() == ThreadState::New ==> r is Ok && final(self).spec_state()
                == ThreadState::Runnable && final(self).spec_stack() == old(self).spec_stack().push(
                entry_frame,
            ),
            old(self).spec_state() != ThreadState::New ==> r == Err::<(), JvmError>(
                JvmError::ThreadingError(ThreadingError::ThreadCreationFailed),
            ) && *final(self) == *old(self),
            final(self).spec_id() == old(self).spec_id(),
            final(self).spec_name() == old(self).spec_name(),
            final(self).spec_priority() == old(self).spec_priority(),
            final(self).spec_monitor() == old(self).spec_monitor(),
    {
        if self.state != ThreadState::New {
            return Err(JvmError::ThreadingError(ThreadingError::ThreadCreationFailed));
        }
        self.stack.push(entry_frame);
        self.state = ThreadState::Runnable;
        Ok(())
    }

    pub fn run(&mut self)
        ensures
            final(self).spec_state() == ThreadState::Running,
            final(self).same_except_state(old(self)),
    {
        self.state = ThreadState::Running;
    }

    pub fn stop(&mut self)
        ensures
            final(self).spec_state() == ThreadState::Terminated,
            final(self).same_except_state(old(self)),
    {
        self.state = ThreadState::Terminated;
    }

    /// A running thread becomes blocked; any other thread is unchanged.
    pub fn suspend(&mut self)
        ensures
            final(self).spec_state() == (if old(self).spec_state() == ThreadState::Running {
                ThreadState::Blocked
            } else {
                old(self).spec_state()
            }),
            final(self).same_except_state(old(self)),
    {
        if self.state == ThreadState::Running {
            self.state = ThreadState::Blocked;
        }
    }

    /// A blocked thread becomes runnable; any other thread is unchanged.
    pub fn resume(&mut self)
        ensures
            final(self).spec_state() == (if old(self).spec_state() == ThreadState::Blocked {
                ThreadState::Runnable
            } else {
                old(self).spec_state()
            }),
            final(self).same_except_state(old(self)),
    {
        if self.state == ThreadState::Blocked {
            self.state = ThreadState::Runnable;
        }
    }

    /// A running thread starts waiting; any other thread is unchanged.
    pub fn wait(&mut self)
        ensures
            final(self).spec_state() == (if old(self).spec_state() == ThreadState::Running {
                ThreadState::Waiting
            } else {
                old(self).spec_state()
            }),
            final(self).same_except_state(old(self)),
    {
        if self.state == ThreadState::Running {
            self.state = ThreadState::Waiting;
        }
    }

    /// A waiting thread becomes runnable; any other thread is unchanged.
    pub fn notify(&mut self)
        ensures
            final(self).spec_state() == (if old(self).spec_state() == ThreadState::Waiting
                || old(self).spec_state() == ThreadState::TimedWaiting {
                ThreadState::Runnable
            } else {
                old(self).spec_state()
            }),
            final(self).same_except_state(old(self)),
    {
        if self.state == ThreadState::Waiting || self.state == ThreadState::TimedWaiting {
            self.state = ThreadState::Runnable;
        }
    }

    pub fn set_state(&mut self, state: ThreadState)
        ensures
            final(self).spec_state() == state,
            final(self).same_except_state(old(self)),
    {
        self.state = state;
    }

    pub fn get_id(&self) -> (r: usize)
        ensures
            r == self.spec_id(),
    {
        self.id
    }

    pub fn get_name(&self) -> (r: &str)
        ensures
            r@ == self.spec_name(),
    {
        self.name.as_str()
    }

    pub fn get_state(&self) -> (r: ThreadState)
        ensures
            r == self.spec_state(),
    {
        self.state
    }

    pub fn get_priority(&self) -> (r: ThreadPriority)
        ensures
            r == self.spec_priority(),
    {
        self.priority
    }

    pub fn set_priority(&mut self, priority: ThreadPriority)
        ensures
            final(self).spec_priority() == priority,
            final(self).spec_id() == old(self).spec_id(),
            final(self).spec_name() == old(self).spec_name(),
            final(self).spec_state() == old(self).spec_state(),
            final(self).spec_stack() == old(self).spec_stack(),
            final(self).spec_monitor() == old(self).spec_monitor(),
    {
        self.priority = priority;
    }

    pub fn get_stack(&self) -> (r: &JvmStack)
        ensures
            r.frames@ == self.spec_stack(),
    {
        &self.stack
    }

    pub fn get_stack_mut(&mut self) -> (r: &mut JvmStack)
        ensures
            r.frames@ == old(self).spec_stack(),
            final(self).spec_stack() == final(r).frames@,
            final(self).spec_id() == old(self).spec_id(),
            final(self).spec_name() == old(self).spec_name(),
            final(self).spec_state() == old(self).spec_state(),
            final(self).spec_priority() == old(self).spec_priority(),
            final(self).spec_monitor() == old(self).spec_monitor(),
    {
        &mut self.stack
    }

    pub fn set_monitor(&mut self, monitor: Option<usize>)
        ensures
            final(self).spec_monitor() == monitor,
            final(self).spec_id() == old(self).spec_id(),
            final(self).spec_name() == old(self).spec_name(),
            final(self).spec_state() == old(self).spec_state(),
            final(self).spec_priority() == old(self).spec_priority(),
            final(self).spec_stack() == old(self).spec_stack(),
    {
        self.monitor = monitor;
    }

    pub fn get_monitor(&self) -> (r: Option<usize>)
        ensures
            r == self.spec_monitor(),
    {
        self.monitor
    }
}

} // verus!
