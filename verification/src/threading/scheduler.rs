use vstd::prelude::*;
use std::collections::{HashMap, VecDeque};
use crate::runtime::error::{JvmError, ThreadingError};
use crate::runtime::frame::JvmStack;
use crate::threading::thread::{priority_level, Thread, ThreadPriority, ThreadState};

verus! {

broadcast use vstd::std_specs::hash::group_hash_axioms;

/// How the scheduler picks the next thread from the ready queue.
#[derive(Debug, Clone, Copy, PartialEq, Eq, Structural)]
pub enum SchedulingPolicy {
    FIFO,
    RoundRobin,
    Priority,
}

/// Priority of thread `id` in the thread table.
pub open spec fn prio(threads: Map<usize, Thread>, id: usize) -> int {
    priority_level(threads[id].spec_priority())
}

/// Index of the first thread of highest priority among the first `n` queue entries.
pub open spec fn best_index(q: Seq<usize>, threads: Map<usize, Thread>, n: int) -> int
    decreases n,
{
    if n <= 1 {
        0
    } else {
        let b = best_index(q, threads, n - 1);
        if prio(threads, q[n - 1]) > prio(threads, q[b]) {
            n - 1
        } else {
            b
        }
    }
}

/// Where a thread of priority `p` goes: before the first queued thread of lower priority.
pub open spec fn insert_pos(q: Seq<usize>, threads: Map<usize, Thread>, p: int, from: int) -> int
    decreases q.len() - from,
{
    if from >= q.len() || from < 0 {
        q.len() as int
    } else if p > prio(threads, q[from]) {
        from
    } else {
        insert_pos(q, threads, p, from + 1)
    }
}

/// The ready queue after `id` is made ready under `policy`.
pub open spec fn enqueue(q: Seq<usize>, threads: Map<usize, Thread>, policy: SchedulingPolicy, id: usize) -> Seq<usize> {
    if q.contains(id) {
        q
    } else if policy == SchedulingPolicy::Priority {
        q.insert(insert_pos(q, threads, prio(threads, id), 0), id)
    } else {
        q.push(id)
    }
}

/// The thread table with thread `id` put in state `s` (when it exists).
pub open spec fn with_state(threads: Map<usize, Thread>, id: usize, s: ThreadState, t: Thread) -> bool {
    t.spec_state() == s && t.same_except_state(&threads[id])
}

/// Keeps track of threads, their saved stacks and the queue of threads ready to run.
pub struct Scheduler {
    threads: HashMap<usize, Thread>,
    thread_stacks: HashMap<usize, JvmStack>,
    ready_queue: VecDeque<usize>,
    policy: SchedulingPolicy,
    current_thread: Option<usize>,
    thread_id_counter: usize,
    time_slice: usize,
}

/// What `yield_thread` does: a running current thread goes back to the ready queue and
/// stops being current; an unknown current thread is an error; otherwise nothing
/// changes.
pub open spec fn yield_post(a: Scheduler, b: Scheduler, r: Result<(), JvmError>) -> bool {
    &&& b.wf()
    &&& match a.spec_current() {
        None => r is Ok && b.spec_threads() == a.spec_threads() && b.spec_ready() == a.spec_ready()
            && b.spec_current() == a.spec_current(),
        Some(c) => if !a.spec_threads().contains_key(c) {
            r == Err::<(), JvmError>(JvmError::ThreadingError(ThreadingError::ThreadInterrupted))
                && b.spec_threads() == a.spec_threads() && b.spec_ready() == a.spec_ready()
                && b.spec_current() == a.spec_current()
        } else if a.spec_threads()[c].spec_state() == ThreadState::Running {
            &&& r is Ok
            &&& b.spec_current() is None
            &&& b.spec_threads().dom() == a.spec_threads().dom()
            &&& with_state(a.spec_threads(), c, ThreadState::Runnable, b.spec_threads()[c])
            &&& forall|k: usize|
                k != c && a.spec_threads().contains_key(k) ==> b.spec_threads()[k] == a.spec_threads()[k]
            &&& b.spec_ready() == enqueue(a.spec_ready(), b.spec_threads(), a.spec_policy(), c)
        } else {
            r is Ok && b.spec_threads() == a.spec_threads() && b.spec_ready() == a.spec_ready()
                && b.spec_current() == a.spec_current()
        },
    }
    &&& b.spec_stacks() == a.spec_stacks()
    &&& b.spec_policy() == a.spec_policy()
    &&& b.spec_counter() == a.spec_counter()
    &&& b.spec_time_slice() == a.spec_time_slice()
}

/// What `sleep` does: a known thread waits with a timeout and stops being current; an
/// unknown one is an error.
pub open spec fn sleep_post(a: Scheduler, b: Scheduler, thread_id: usize, r: Result<(), JvmError>) -> bool {
    &&& b.wf()
    &&& !a.spec_threads().contains_key(thread_id) ==> r == Err::<(), JvmError>(
        JvmError::ThreadingError(ThreadingError::ThreadInterrupted),
    ) && b.spec_threads() == a.spec_threads() && b.spec_current() == a.spec_current()
    &&& a.spec_threads().contains_key(thread_id) ==> {
        &&& r is Ok
        &&& b.spec_threads().dom() == a.spec_threads().dom()
        &&& with_state(a.spec_threads(), thread_id, ThreadState::TimedWaiting, b.spec_threads()[thread_id])
        &&& forall|k: usize|
            k != thread_id && a.spec_threads().contains_key(k) ==> b.spec_threads()[k] == a.spec_threads()[k]
        &&& b.spec_current() == (if a.spec_current() == Some(thread_id) {
            None
        } else {
            a.spec_current()
        })
    }
    &&& b.spec_ready() == a.spec_ready()
    &&& b.spec_stacks() == a.spec_stacks()
    &&& b.spec_policy() == a.spec_policy()
    &&& b.spec_counter() == a.spec_counter()
    &&& b.spec_time_slice() == a.spec_time_slice()
}

/// What `join` does when it returns: nothing changes; it succeeds for a missing or
/// terminated thread and otherwise reports the failed yield.
pub open spec fn join_post(a: Scheduler, b: Scheduler, thread_id: usize, r: Result<(), JvmError>) -> bool {
    &&& b.wf()
    &&& (!a.spec_threads().contains_key(thread_id) || a.spec_threads()[thread_id].spec_state()
        == ThreadState::Terminated) ==> r is Ok
    &&& (a.spec_threads().contains_key(thread_id) && a.spec_threads()[thread_id].spec_state()
        != ThreadState::Terminated) ==> r == Err::<(), JvmError>(
        JvmError::ThreadingError(ThreadingError::ThreadInterrupted),
    )
    &&& b.spec_threads() == a.spec_threads()
    &&& b.spec_ready() == a.spec_ready()
    &&& b.spec_current() == a.spec_current()
    &&& b.spec_stacks() == a.spec_stacks()
    &&& b.spec_policy() == a.spec_policy()
    &&& b.spec_counter() == a.spec_counter()
    &&& b.spec_time_slice() == a.spec_time_slice()
}

/// Whether a thread is waiting (with or without a timeout).
pub open spec fn is_waiting(a: Scheduler, thread_id: usize) -> bool {
    a.spec_threads().contains_key(thread_id) && (a.spec_threads()[thread_id].spec_state()
        == ThreadState::Waiting || a.spec_threads()[thread_id].spec_state() == ThreadState::TimedWaiting)
}

/// What `wake` does: a waiting thread becomes runnable; nothing else changes.
pub open spec fn wake_post(a: Scheduler, b: Scheduler, thread_id: usize) -> bool {
    &&& b.wf()
    &&& b.spec_threads().dom() == a.spec_threads().dom()
    &&& is_waiting(a, thread_id) ==> with_state(
        a.spec_threads(),
        thread_id,
        ThreadState::Runnable,
        b.spec_threads()[thread_id],
    ) && forall|k: usize|
        k != thread_id && a.spec_threads().contains_key(k) ==> b.spec_threads()[k] == a.spec_threads()[k]
    &&& !is_waiting(a, thread_id) ==> b.spec_threads() == a.spec_threads()
    &&& b.spec_stacks() == a.spec_stacks()
    &&& b.spec_ready() == a.spec_ready()
    &&& b.spec_policy() == a.spec_policy()
    &&& b.spec_current() == a.spec_current()
    &&& b.spec_counter() == a.spec_counter()
    &&& b.spec_time_slice() == a.spec_time_slice()
}

/// What `create_thread` does: a new thread named `name` in state `New`, with normal
/// priority and an empty stack, under the next id.
pub open spec fn create_post(a: Scheduler, b: Scheduler, name: Seq<char>, r: Result<usize, JvmError>) -> bool {
    &&& b.wf()
    &&& r == Ok::<usize, JvmError>(a.spec_counter())
    &&& !a.spec_threads().contains_key(a.spec_counter())
    &&& b.spec_counter() == a.spec_counter() + 1
    &&& b.spec_threads().dom() == a.spec_threads().dom().insert(a.spec_counter())
    &&& forall|k: usize|
        k != a.spec_counter() && a.spec_threads().contains_key(k) ==> b.spec_threads()[k] == a.spec_threads()[k]
    &&& b.spec_threads()[a.spec_counter()].spec_id() == a.spec_counter()
    &&& b.spec_threads()[a.spec_counter()].spec_name() == name
    &&& b.spec_threads()[a.spec_counter()].spec_state() == ThreadState::New
    &&& b.spec_threads()[a.spec_counter()].spec_priority() == ThreadPriority::Normal
    &&& b.spec_stacks() == a.spec_stacks().insert(a.spec_counter(), b.spec_stacks()[a.spec_counter()])
    &&& b.spec_stacks()[a.spec_counter()].frames@.len() == 0
    &&& b.spec_ready() == a.spec_ready()
    &&& b.spec_policy() == a.spec_policy()
    &&& b.spec_current() == a.spec_current()
    &&& b.spec_time_slice() == a.spec_time_slice()
}

impl Scheduler {
    pub closed spec fn spec_threads(&self) -> Map<usize, Thread> {
        self.threads@
    }

    pub closed spec fn spec_stacks(&self) -> Map<usize, JvmStack> {
        self.thread_stacks@
    }

    pub closed spec fn spec_ready(&self) -> Seq<usize> {
        self.ready_queue@
    }

    pub closed spec fn spec_policy(&self) -> SchedulingPolicy {
        self.policy
    }

    pub closed spec fn spec_current(&self) -> Option<usize> {
        self.current_thread
    }

    pub closed spec fn spec_counter(&self) -> usize {
        self.thread_id_counter
    }

    pub closed spec fn spec_time_slice(&self) -> usize {
        self.time_slice
    }

    /// Thread ids are keys below the counter, each thread knows its own id, and the
    /// ready queue holds known threads, each at most once.
    pub open spec fn wf(&self) -> bool {
        &&& self.spec_counter() >= 1
        &&& forall|k: usize| #[trigger]
            self.spec_threads().contains_key(k) ==> 1 <= k < self.spec_counter()
                && self.spec_threads()[k].spec_id() == k
        &&& forall|i: int|
            0 <= i < self.spec_ready().len() ==> self.spec_threads().contains_key(
                #[trigger] self.spec_ready()[i],
            )
        &&& self.spec_ready().no_duplicates()
    }

    pub fn new(policy: SchedulingPolicy) -> (s: Self)
        ensures
            s.wf(),
            s.spec_threads() == Map::<usize, Thread>::empty(),
            s.spec_stacks() == Map::<usize, JvmStack>::empty(),
            s.spec_ready().len() == 0,
            s.spec_policy() == policy,
            s.spec_current() is None,
            s.spec_counter() == 1,
            s.spec_time_slice() == 1000,
    {
        Scheduler {
            threads: HashMap::new(),
            thread_stacks: HashMap::new(),
            ready_queue: VecDeque::new(),
            policy,
            current_thread: None,
            thread_id_counter: 1,
            time_slice: 1000,
        }
    }

    /// Registers a new thread in state `New` under a fresh id and gives it an empty stack.
    pub fn create_thread(&mut self, name: String) -> (r: Result<usize, JvmError>)
        requires
            old(self).wf(),
            old(self).spec_counter() < usize::MAX,
        ensures
            create_post(*old(self), *final(self), name@, r),
    {
        let id = self.thread_id_counter;
        self.thread_id_counter = self.thread_id_counter + 1;
        let thread = Thread::new(id, name);
        self.threads.insert(id, thread);
        self.thread_stacks.insert(id, JvmStack::new());
        assert(self.spec_threads().dom() =~= old(self).spec_threads().dom().insert(id));
        Ok(id)
    }

    /// Makes a `New` thread runnable and puts it on the ready queue.
    pub fn start_thread(&mut self, thread_id: usize) -> (r: Result<(), JvmError>)
        requires
            old(self).wf(),
        ensures
            final(self).wf(),
            r is Ok <==> (old(self).spec_threads().contains_key(thread_id) && old(
                self,
            ).spec_threads()[thread_id].spec_state() == ThreadState::New),
            r is Err ==> r == Err::<(), JvmError>(
                JvmError::ThreadingError(ThreadingError::ThreadCreationFailed),
            ) && final(self).spec_threads() == old(self).spec_threads() && final(self).spec_ready()
                == old(self).spec_ready(),
            r is Ok ==> final(self).spec_threads().dom() == old(self).spec_threads().dom()
                && with_state(
                old(self).spec_threads(),
                thread_id,
                ThreadState::Runnable,
                final(self).spec_threads()[thread_id],
            ) && (forall|k: usize|
                k != thread_id && old(self).spec_threads().contains_key(k)
                    ==> final(self).spec_threads()[k] == old(self).spec_threads()[k])
                && final(self).spec_ready() == enqueue(
                old(self).spec_ready(),
                final(self).spec_threads(),
                old(self).spec_policy(),
                thread_id,
            ),
            final(self).spec_stacks() == old(self).spec_stacks(),
            final(self).spec_policy() == old(self).spec_policy(),
            final(self).spec_current() == old(self).spec_current(),
            final(self).spec_counter() == old(self).spec_counter(),
            final(self).spec_time_slice() == old(self).spec_time_slice(),
    {
        let state = match self.threads.get(&thread_id) {
            Some(t) => t.get_state(),
            None => {
                return Err(JvmError::ThreadingError(ThreadingError::ThreadCreationFailed));
            },
        };
        if state != ThreadState::New {
            return Err(JvmError::ThreadingError(ThreadingError::ThreadCreationFailed));
        }
        self.set_state_of(thread_id, ThreadState::Runnable);
        self.add_to_ready_queue(thread_id);
        Ok(())
    }

    /// Puts thread `thread_id` (which must exist) in state `state`.
    fn set_state_of(&mut self, thread_id: usize, state: ThreadState)
        requires
            old(self).wf(),
            old(self).spec_threads().contains_key(thread_id),
        ensures
            final(self).wf(),
            final(self).spec_threads().dom() == old(self).spec_threads().dom(),
            with_state(old(self).spec_threads(), thread_id, state, final(self).spec_threads()[thread_id]),
            forall|k: usize|
                k != thread_id && old(self).spec_threads().contains_key(k)
                    ==> final(self).spec_threads()[k] == old(self).spec_threads()[k],
            final(self).spec_stacks() == old(self).spec_stacks(),
            final(self).spec_ready() == old(self).spec_ready(),
            final(self).spec_policy() == old(self).spec_policy(),
            final(self).spec_current() == old(self).spec_current(),
            final(self).spec_counter() == old(self).spec_counter(),
            final(self).spec_time_slice() == old(self).spec_time_slice(),
    {
        let removed = self.threads.remove(&thread_id);
        match removed {
            Some(mut t) => {
                t.set_state(state);
                self.threads.insert(thread_id, t);
                assert(self.spec_threads().dom() =~= old(self).spec_threads().dom());
            },
            None => {},
        }
    }

    /// Makes a thread that waits (with or without a timeout) runnable again; any other
    /// thread is left alone.
    pub fn wake(&mut self, thread_id: usize)
        requires
            old(self).wf(),
        ensures
            wake_post(*old(self), *final(self), thread_id),
    {
        let waiting = match self.get_thread(thread_id) {
            Some(t) => {
                let st = t.get_state();
                st == ThreadState::Waiting || st == ThreadState::TimedWaiting
            },
            None => false,
        };
        if waiting {
            self.set_state_of(thread_id, ThreadState::Runnable);
        }
    }

    /// Save the current thread's stack into the scheduler.
    pub fn save_stack(&mut self, thread_id: usize, stack: JvmStack)
        requires
            old(self).wf(),
        ensures
            final(self).wf(),
            final(self).spec_stacks() == old(self).spec_stacks().insert(thread_id, stack),
            final(self).spec_threads() == old(self).spec_threads(),
            final(self).spec_ready() == old(self).spec_ready(),
            final(self).spec_policy() == old(self).spec_policy(),
            final(self).spec_current() == old(self).spec_current(),
            final(self).spec_counter() == old(self).spec_counter(),
            final(self).spec_time_slice() == old(self).spec_time_slice(),
    {
        self.thread_stacks.insert(thread_id, stack);
        assert(self.spec_threads() == old(self).spec_threads());
        assert(self.spec_ready() == old(self).spec_ready());
    }

    /// Take a thread's stack out of the scheduler.
    /// Returns an empty stack if the thread has no saved stack.
    pub fn take_stack(&mut self, thread_id: usize) -> (r: JvmStack)
        requires
            old(self).wf(),
        ensures
            final(self).wf(),
            old(self).spec_stacks().contains_key(thread_id) ==> r == old(
                self,
            ).spec_stacks()[thread_id],
            !old(self).spec_stacks().contains_key(thread_id) ==> r.frames@.len() == 0,
            final(self).spec_stacks() == old(self).spec_stacks().remove(thread_id),
            final(self).spec_threads() == old(self).spec_threads(),
            final(self).spec_ready() == old(self).spec_ready(),
            final(self).spec_policy() == old(self).spec_policy(),
            final(self).spec_current() == old(self).spec_current(),
            final(self).spec_counter() == old(self).spec_counter(),
            final(self).spec_time_slice() == old(self).spec_time_slice(),
    {
        let r = match self.thread_stacks.remove(&thread_id) {
            Some(s) => s,
            None => JvmStack::new(),
        };
        assert(self.spec_threads() == old(self).spec_threads());
        assert(self.spec_ready() == old(self).spec_ready());
        r
    }


    /// Removes and returns the first thread of highest priority in the ready queue.
    fn select_highest_priority(&mut self) -> (r: usize)
        requires
            old(self).wf(),
            old(self).spec_ready().len() > 0,
        ensures
            final(self).wf(),
            r == old(self).spec_ready()[best_index(
                old(self).spec_ready(),
                old(self).spec_threads(),
                old(self).spec_ready().len() as int,
            )],
            final(self).spec_ready() == old(self).spec_ready().remove(
                best_index(
                    old(self).spec_ready(),
                    old(self).spec_threads(),
                    old(self).spec_ready().len() as int,
                ),
            ),
            final(self).spec_threads() == old(self).spec_threads(),
            final(self).spec_stacks() == old(self).spec_stacks(),
            final(self).spec_policy() == old(self).spec_policy(),
            final(self).spec_current() == old(self).spec_current(),
            final(self).spec_counter() == old(self).spec_counter(),
            final(self).spec_time_slice() == old(self).spec_time_slice(),
    {
        let ghost q = self.spec_ready();
        let ghost th = self.spec_threads();
        let n = self.ready_queue.len();
        let mut best: usize = 0;
        let mut highest_priority = self.priority_of(self.ready_queue[0]);
        let mut i: usize = 0;
        while i < n
            invariant
                i <= n,
                n == q.len(),
                q == self.spec_ready(),
                th == self.spec_threads(),
                self.wf(),
                best < n,
                best as int == best_index(q, th, i as int),
                highest_priority == prio(th, q[best as int]),
            decreases n - i,
        {
            let p = self.priority_of(self.ready_queue[i]);
            if p > highest_priority {
                highest_priority = p;
                best = i;
            }
            i += 1;
        }
        let id = self.ready_queue[best];
        self.ready_queue.remove(best);
        proof {
            let q2 = self.spec_ready();
            assert forall|k: int| 0 <= k < q2.len() implies self.spec_threads().contains_key(
                #[trigger] q2[k],
            ) by {
                if k < best {
                    assert(q2[k] == q[k]);
                } else {
                    assert(q2[k] == q[k + 1]);
                }
            }
            assert forall|a: int, b: int| 0 <= a < b < q2.len() implies q2[a] != q2[b] by {
                let a0 = if a < best { a } else { a + 1 };
                let b0 = if b < best { b } else { b + 1 };
                assert(q2[a] == q[a0] && q2[b] == q[b0]);
            }
        }
        id
    }

    /// Picks the next thread to run according to the policy and marks it running.
    pub fn schedule(&mut self) -> (r: Option<usize>)
        requires
            old(self).wf(),
        ensures
            final(self).wf(),
            old(self).spec_ready().len() == 0 ==> r is None && final(self).spec_threads() == old(
                self,
            ).spec_threads() && final(self).spec_ready() == old(self).spec_ready()
                && final(self).spec_current() == old(self).spec_current(),
            old(self).spec_ready().len() > 0 ==> {
                let q = old(self).spec_ready();
                let b = best_index(q, old(self).spec_threads(), q.len() as int);
                let picked = if old(self).spec_policy() == SchedulingPolicy::Priority {
                    q[b]
                } else {
                    q[0]
                };
                &&& r == Some(picked)
                &&& final(self).spec_current() == Some(picked)
                &&& final(self).spec_ready() == (match old(self).spec_policy() {
                    SchedulingPolicy::FIFO => q.drop_first(),
                    SchedulingPolicy::RoundRobin => q.drop_first().push(q[0]),
                    SchedulingPolicy::Priority => q.remove(b),
                })
                &&& final(self).spec_threads().dom() == old(self).spec_threads().dom()
                &&& with_state(
                    old(self).spec_threads(),
                    picked,
                    ThreadState::Running,
                    final(self).spec_threads()[picked],
                )
                &&& forall|k: usize|
                    k != picked && old(self).spec_threads().contains_key(k)
                        ==> final(self).spec_threads()[k] == old(self).spec_threads()[k]
            },
            final(self).spec_stacks() == old(self).spec_stacks(),
            final(self).spec_policy() == old(self).spec_policy(),
            final(self).spec_counter() == old(self).spec_counter(),
            final(self).spec_time_slice() == old(self).spec_time_slice(),
    {
        if self.ready_queue.len() == 0 {
            return None;
        }
        let ghost q = self.spec_ready();
        proof {
            law_priority_pick_is_highest(q, self.spec_threads(), q.len() as int);
            let b = best_index(q, self.spec_threads(), q.len() as int);
            assert(self.spec_threads().contains_key(q[b]));
        }
        let thread_id = match self.policy {
            SchedulingPolicy::FIFO => {
                let id = self.ready_queue.pop_front().unwrap();
                proof {
                    let q2 = self.spec_ready();
                    assert(q2 =~= q.drop_first());
                    assert forall|k: int| 0 <= k < q2.len() implies self.spec_threads().contains_key(
                        #[trigger] q2[k],
                    ) by {
                        assert(q2[k] == q[k + 1]);
                    }
                    assert forall|a: int, b: int| 0 <= a < b < q2.len() implies q2[a] != q2[b] by {
                        assert(q2[a] == q[a + 1] && q2[b] == q[b + 1]);
                    }
                }
                id
            },
            SchedulingPolicy::RoundRobin => {
                let id = self.ready_queue.pop_front().unwrap();
                self.ready_queue.push_back(id);
                proof {
                    let q2 = self.spec_ready();
                    assert(q2 =~= q.drop_first().push(q[0]));
                    assert forall|k: int| 0 <= k < q2.len() implies self.spec_threads().contains_key(
                        #[trigger] q2[k],
                    ) by {
                        if k < q.len() - 1 {
                            assert(q2[k] == q[k + 1]);
                        } else {
                            assert(q2[k] == q[0]);
                        }
                    }
                    assert forall|a: int, b: int| 0 <= a < b < q2.len() implies q2[a] != q2[b] by {
                        let a0 = if a < q.len() - 1 { a + 1 } else { 0 };
                        let b0 = if b < q.len() - 1 { b + 1 } else { 0 };
                        assert(q2[a] == q[a0] && q2[b] == q[b0]);
                    }
                }
                id
            },
            SchedulingPolicy::Priority => self.select_highest_priority(),
        };
        proof {
            if old(self).spec_policy() != SchedulingPolicy::Priority {
                assert(old(self).spec_threads().contains_key(q[0]));
            }
        }
        assert(old(self).spec_threads().contains_key(thread_id));
        self.set_state_of(thread_id, ThreadState::Running);
        self.current_thread = Some(thread_id);
        Some(thread_id)
    }

    /// The running current thread goes back on the ready queue and gives up the processor.
    pub fn yield_thread(&mut self) -> (r: Result<(), JvmError>)
        requires
            old(self).wf(),
        ensures
            yield_post(*old(self), *final(self), r),
    {
        if let Some(current_id) = self.current_thread {
            let state = match self.threads.get(&current_id) {
                Some(t) => t.get_state(),
                None => {
                    return Err(JvmError::ThreadingError(ThreadingError::ThreadInterrupted));
                },
            };
            if state == ThreadState::Running {
                self.set_state_of(current_id, ThreadState::Runnable);
                self.add_to_ready_queue(current_id);
                self.current_thread = None;
            }
        }
        Ok(())
    }

    /// Puts a thread to sleep (timed waiting); a sleeping current thread stops being current.
    pub fn sleep(&mut self, thread_id: usize, _millis: u64) -> (r: Result<(), JvmError>)
        requires
            old(self).wf(),
        ensures
            sleep_post(*old(self), *final(self), thread_id, r),
    {
        if self.threads.get(&thread_id).is_none() {
            return Err(JvmError::ThreadingError(ThreadingError::ThreadInterrupted));
        }
        self.set_state_of(thread_id, ThreadState::TimedWaiting);
        if Some(thread_id) == self.current_thread {
            self.current_thread = None;
        }
        Ok(())
    }

    /// Waits for a thread to terminate. A missing or terminated thread returns at once;
    /// otherwise the current thread yields, which fails when it is unknown.
    pub fn join(&mut self, thread_id: usize) -> (r: Result<(), JvmError>)
        requires
            old(self).wf(),
            !old(self).spec_threads().contains_key(thread_id) || old(
                self,
            ).spec_threads()[thread_id].spec_state() == ThreadState::Terminated || (old(
                self,
            ).spec_current() matches Some(c) && !old(self).spec_threads().contains_key(c)),
        ensures
            join_post(*old(self), *final(self), thread_id, r),
    {
        if self.is_thread_terminated(thread_id) {
            return Ok(());
        }
        self.yield_thread()
    }

    /// Marks a thread terminated; a terminated current thread stops being current.
    pub fn set_thread_terminated(&mut self, thread_id: usize)
        requires
            old(self).wf(),
        ensures
            final(self).wf(),
            !old(self).spec_threads().contains_key(thread_id) ==> final(self).spec_threads()
                == old(self).spec_threads(),
            old(self).spec_threads().contains_key(thread_id) ==> {
                &&& final(self).spec_threads().dom() == old(self).spec_threads().dom()
                &&& with_state(
                    old(self).spec_threads(),
                    thread_id,
                    ThreadState::Terminated,
                    final(self).spec_threads()[thread_id],
                )
                &&& forall|k: usize|
                    k != thread_id && old(self).spec_threads().contains_key(k)
                        ==> final(self).spec_threads()[k] == old(self).spec_threads()[k]
            },
            final(self).spec_current() == (if old(self).spec_current() == Some(thread_id) {
                None
            } else {
                old(self).spec_current()
            }),
            final(self).spec_ready() == old(self).spec_ready(),
            final(self).spec_stacks() == old(self).spec_stacks(),
            final(self).spec_policy() == old(self).spec_policy(),
            final(self).spec_counter() == old(self).spec_counter(),
            final(self).spec_time_slice() == old(self).spec_time_slice(),
    {
        if self.threads.get(&thread_id).is_some() {
            self.set_state_of(thread_id, ThreadState::Terminated);
        }
        let ghost mid_threads = self.spec_threads();
        let ghost mid_ready = self.spec_ready();
        assert(self.wf());
        if self.current_thread == Some(thread_id) {
            self.current_thread = None;
        }
        assert(self.spec_threads() == mid_threads);
        assert(self.spec_ready() == mid_ready);
    }

    pub fn get_current_thread(&self) -> (r: Option<usize>)
        ensures
            r == self.spec_current(),
    {
        self.current_thread
    }

    pub fn set_policy(&mut self, policy: SchedulingPolicy)
        ensures
            final(self).spec_policy() == policy,
            final(self).spec_threads() == old(self).spec_threads(),
            final(self).spec_stacks() == old(self).spec_stacks(),
            final(self).spec_ready() == old(self).spec_ready(),
            final(self).spec_current() == old(self).spec_current(),
            final(self).spec_counter() == old(self).spec_counter(),
            final(self).spec_time_slice() == old(self).spec_time_slice(),
    {
        self.policy = policy;
    }

    pub fn get_policy(&self) -> (r: SchedulingPolicy)
        ensures
            r == self.spec_policy(),
    {
        self.policy
    }

    pub fn set_time_slice(&mut self, time_slice: usize)
        ensures
            final(self).spec_time_slice() == time_slice,
            final(self).spec_threads() == old(self).spec_threads(),
            final(self).spec_stacks() == old(self).spec_stacks(),
            final(self).spec_ready() == old(self).spec_ready(),
            final(self).spec_policy() == old(self).spec_policy(),
            final(self).spec_current() == old(self).spec_current(),
            final(self).spec_counter() == old(self).spec_counter(),
    {
        self.time_slice = time_slice;
    }

    pub fn get_time_slice(&self) -> (r: usize)
        ensures
            r == self.spec_time_slice(),
    {
        self.time_slice
    }

    /// The id the next created thread gets.
    pub fn next_thread_id(&self) -> (r: usize)
        ensures
            r == self.spec_counter(),
    {
        self.thread_id_counter
    }

    pub fn thread_count(&self) -> (r: usize)
        ensures
            r == self.spec_threads().len(),
    {
        self.threads.len()
    }

    pub fn ready_count(&self) -> (r: usize)
        ensures
            r == self.spec_ready().len(),
    {
        self.ready_queue.len()
    }

    pub fn has_runnable_threads(&self) -> (r: bool)
        ensures
            r == (self.spec_ready().len() > 0 || self.spec_current() is Some),
    {
        self.ready_queue.len() > 0 || self.current_thread.is_some()
    }

    /// A missing thread counts as terminated.
    pub fn is_thread_terminated(&self, thread_id: usize) -> (r: bool)
        ensures
            r == (!self.spec_threads().contains_key(thread_id) || self.spec_threads()[thread_id].spec_state()
                == ThreadState::Terminated),
    {
        match self.threads.get(&thread_id) {
            Some(t) => t.get_state() == ThreadState::Terminated,
            None => true,
        }
    }

    pub fn get_thread(&self, thread_id: usize) -> (r: Option<&Thread>)
        ensures
            match r {
                Some(t) => self.spec_threads().contains_key(thread_id) && *t
                    == self.spec_threads()[thread_id],
                None => !self.spec_threads().contains_key(thread_id),
            },
    {
        self.threads.get(&thread_id)
    }

    fn queue_contains(&self, thread_id: usize) -> (r: bool)
        ensures
            r == self.spec_ready().contains(thread_id),
    {
        let n = self.ready_queue.len();
        let mut i: usize = 0;
        while i < n
            invariant
                i <= n,
                n == self.spec_ready().len(),
                forall|j: int| 0 <= j < i ==> self.spec_ready()[j] != thread_id,
            decreases n - i,
        {
            if self.ready_queue[i] == thread_id {
                return true;
            }
            i += 1;
        }
        false
    }

    fn priority_of(&self, thread_id: usize) -> (r: i32)
        requires
            self.spec_threads().contains_key(thread_id),
        ensures
            r == prio(self.spec_threads(), thread_id),
    {
        match self.threads.get(&thread_id) {
            Some(t) => t.get_priority().value(),
            None => 0,
        }
    }

    fn add_to_ready_queue(&mut self, thread_id: usize)
        requires
            old(self).wf(),
            old(self).spec_threads().contains_key(thread_id),
        ensures
            final(self).wf(),
            final(self).spec_ready() == enqueue(
                old(self).spec_ready(),
                old(self).spec_threads(),
                old(self).spec_policy(),
                thread_id,
            ),
            final(self).spec_threads() == old(self).spec_threads(),
            final(self).spec_stacks() == old(self).spec_stacks(),
            final(self).spec_policy() == old(self).spec_policy(),
            final(self).spec_current() == old(self).spec_current(),
            final(self).spec_counter() == old(self).spec_counter(),
            final(self).spec_time_slice() == old(self).spec_time_slice(),
    {
        if !self.queue_contains(thread_id) {
            match self.policy {
                SchedulingPolicy::Priority => {
                    let p = self.priority_of(thread_id);
                    let n = self.ready_queue.len();
                    let mut pos: usize = 0;
                    while pos < n && !(p > self.priority_of(self.ready_queue[pos]))
                        invariant
                            pos <= n,
                            n == self.spec_ready().len(),
                            self.wf(),
                            insert_pos(self.spec_ready(), self.spec_threads(), p as int, pos as int)
                                == insert_pos(self.spec_ready(), self.spec_threads(), p as int, 0),
                        decreases n - pos,
                    {
                        pos += 1;
                    }
                    self.ready_queue.insert(pos, thread_id);
                    proof {
                        let q = old(self).spec_ready();
                        let q2 = self.spec_ready();
                        assert forall|i: int| 0 <= i < q2.len() implies self.spec_threads().contains_key(
                            #[trigger] q2[i],
                        ) by {
                            if i < pos {
                                assert(q2[i] == q[i]);
                            } else if i > pos {
                                assert(q2[i] == q[i - 1]);
                            }
                        }
                        assert forall|i: int, j: int| 0 <= i < j < q2.len() implies q2[i] != q2[j] by {
                            if j < pos {
                            } else if j == pos {
                                assert(q.contains(q2[i]));
                            } else if i == pos {
                                assert(q.contains(q2[j]));
                            } else if i > pos {
                                assert(q2[i] == q[i - 1] && q2[j] == q[j - 1]);
                            } else {
                                assert(q2[i] == q[i] && q2[j] == q[j - 1]);
                            }
                        }
                    }
                },
                _ => {
                    self.ready_queue.push_back(thread_id);
                    proof {
                        let q = old(self).spec_ready();
                        let q2 = self.spec_ready();
                        assert forall|i: int| 0 <= i < q2.len() implies self.spec_threads().contains_key(
                            #[trigger] q2[i],
                        ) by {
                            if i < q.len() {
                                assert(q2[i] == q[i]);
                            }
                        }
                        assert forall|i: int, j: int| 0 <= i < j < q2.len() implies q2[i] != q2[j] by {
                            if j == q.len() {
                                assert(q.contains(q2[i]));
                            }
                        }
                    }
                },
            }
        }
    }
}

/// The thread the priority policy picks has the highest priority in the queue, and no
/// earlier thread in the queue has that priority.
pub proof fn law_priority_pick_is_highest(q: Seq<usize>, threads: Map<usize, Thread>, n: int)
    requires
        1 <= n <= q.len(),
    ensures
        0 <= best_index(q, threads, n) < n,
        forall|j: int| 0 <= j < n ==> prio(threads, #[trigger] q[j]) <= prio(threads, q[best_index(q, threads, n)]),
        forall|j: int|
            0 <= j < best_index(q, threads, n) ==> prio(threads, #[trigger] q[j]) < prio(
                threads,
                q[best_index(q, threads, n)],
            ),
    decreases n,
{
    if n > 1 {
        law_priority_pick_is_highest(q, threads, n - 1);
    }
}

/// Making an already-queued thread ready leaves the queue alone; otherwise the thread
/// appears in the queue exactly once more.
pub proof fn law_enqueue_adds_once(q: Seq<usize>, threads: Map<usize, Thread>, policy: SchedulingPolicy, id: usize)
    ensures
        enqueue(q, threads, policy, id).contains(id),
        q.contains(id) ==> enqueue(q, threads, policy, id) == q,
        !q.contains(id) ==> enqueue(q, threads, policy, id).len() == q.len() + 1,
{
    if !q.contains(id) {
        if policy == SchedulingPolicy::Priority {
            lemma_insert_pos_range(q, threads, prio(threads, id), 0);
            let p = insert_pos(q, threads, prio(threads, id), 0);
            assert(q.insert(p, id)[p] == id);
        } else {
            assert(q.push(id)[q.len() as int] == id);
        }
    }
}

proof fn lemma_insert_pos_range(q: Seq<usize>, threads: Map<usize, Thread>, p: int, from: int)
    requires
        0 <= from,
    ensures
        0 <= insert_pos(q, threads, p, from) <= q.len(),
    decreases q.len() - from,
{
    if from < q.len() && !(p > prio(threads, q[from])) {
        lemma_insert_pos_range(q, threads, p, from + 1);
    }
}

impl Default for Scheduler {
    fn default() -> (s: Self)
        ensures
            s.wf(),
            s.spec_threads() == Map::<usize, Thread>::empty(),
            s.spec_ready().len() == 0,
            s.spec_policy() == SchedulingPolicy::RoundRobin,
            s.spec_current() is None,
    {
        Scheduler::new(SchedulingPolicy::RoundRobin)
    }
}

} // verus!
