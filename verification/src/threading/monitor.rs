use vstd::prelude::*;
use std::collections::VecDeque;
use crate::runtime::error::{JvmError, ThreadingError};

verus! {

/// The abstract state of a monitor: owner, re-entry count and queue of waiting threads.
pub struct MonitorState {
    pub owner: Option<usize>,
    pub entry_count: nat,
    pub waiters: Seq<usize>,
}

/// A Java object monitor with re-entrant ownership and a FIFO queue of waiting threads.
pub struct Monitor {
    owner: Option<usize>,
    entry_count: usize,
    waiters: VecDeque<usize>,
}

pub open spec fn monitor_error() -> JvmError {
    JvmError::ThreadingError(ThreadingError::IllegalMonitorState)
}

/// An owned monitor has a positive count; a free one has count zero.
pub open spec fn well_formed(s: MonitorState) -> bool {
    s.owner is Some <==> s.entry_count > 0
}

/// Hand the monitor to the first waiter, if any, once the count reaches zero.
pub open spec fn release_to_next(owner: Option<usize>, count: nat, waiters: Seq<usize>) -> MonitorState {
    if count == 0 {
        if waiters.len() > 0 {
            MonitorState { owner: Some(waiters[0]), entry_count: 1, waiters: waiters.drop_first() }
        } else {
            MonitorState { owner: None, entry_count: 0, waiters }
        }
    } else {
        MonitorState { owner, entry_count: count, waiters }
    }
}

/// `monitorenter` by `t`: re-enter, acquire a free monitor, or queue up and fail.
pub open spec fn enter_result(s: MonitorState, t: usize) -> (MonitorState, bool) {
    if s.owner == Some(t) {
        (MonitorState { entry_count: s.entry_count + 1, ..s }, true)
    } else if s.owner is Some {
        (MonitorState { waiters: s.waiters.push(t), ..s }, false)
    } else {
        (MonitorState { owner: Some(t), entry_count: 1, waiters: s.waiters }, true)
    }
}

/// `monitorexit` by `t`: only the owner may exit; the last exit passes ownership on.
pub open spec fn exit_result(s: MonitorState, t: usize) -> (MonitorState, bool) {
    if s.owner != Some(t) {
        (s, false)
    } else {
        (release_to_next(s.owner, (s.entry_count - 1) as nat, s.waiters), true)
    }
}

/// `wait` by `t`: give up one level of ownership and join the end of the queue.
pub open spec fn wait_result(s: MonitorState, t: usize) -> (MonitorState, bool) {
    if s.owner != Some(t) {
        (s, false)
    } else {
        let r = release_to_next(s.owner, (s.entry_count - 1) as nat, s.waiters);
        (MonitorState { waiters: r.waiters.push(t), ..r }, true)
    }
}

impl Monitor {
    pub closed spec fn state(&self) -> MonitorState {
        MonitorState { owner: self.owner, entry_count: self.entry_count as nat, waiters: self.waiters@ }
    }

    pub fn new() -> (m: Self)
        ensures
            m.state() == (MonitorState { owner: None, entry_count: 0, waiters: Seq::empty() }),
    {
        Monitor { owner: None, entry_count: 0, waiters: VecDeque::new() }
    }

    pub fn enter(&mut self, thread_id: usize) -> (r: Result<(), JvmError>)
        requires
            well_formed(old(self).state()),
            old(self).state().owner == Some(thread_id) ==> old(self).state().entry_count
                < usize::MAX,
        ensures
            final(self).state() == enter_result(old(self).state(), thread_id).0,
            well_formed(final(self).state()),
            r is Ok <==> enter_result(old(self).state(), thread_id).1,
            r is Err ==> r == Err::<(), JvmError>(monitor_error()),
    {
        if self.owner == Some(thread_id) {
            self.entry_count = self.entry_count + 1;
            return Ok(());
        }
        if self.owner.is_some() {
            self.waiters.push_back(thread_id);
            return Err(JvmError::ThreadingError(ThreadingError::IllegalMonitorState));
        }
        self.owner = Some(thread_id);
        self.entry_count = 1;
        Ok(())
    }

    /// Drops one level of ownership and, at zero, hands over to the first waiter.
    fn release_one(&mut self)
        requires
            well_formed(old(self).state()),
            old(self).state().owner is Some,
        ensures
            final(self).state() == release_to_next(
                old(self).state().owner,
                (old(self).state().entry_count - 1) as nat,
                old(self).state().waiters,
            ),
    {
        let count = self.entry_count - 1;
        if count == 0 {
            match self.waiters.pop_front() {
                Some(next_thread) => {
                    self.owner = Some(next_thread);
                    self.entry_count = 1;
                },
                None => {
                    self.owner = None;
                    self.entry_count = 0;
                },
            }
        } else {
            self.entry_count = count;
        }
    }

    pub fn exit(&mut self, thread_id: usize) -> (r: Result<(), JvmError>)
        requires
            well_formed(old(self).state()),
        ensures
            final(self).state() == exit_result(old(self).state(), thread_id).0,
            well_formed(final(self).state()),
            r is Ok <==> exit_result(old(self).state(), thread_id).1,
            r is Err ==> r == Err::<(), JvmError>(monitor_error()),
    {
        if self.owner != Some(thread_id) {
            return Err(JvmError::ThreadingError(ThreadingError::IllegalMonitorState));
        }
        self.release_one();
        Ok(())
    }

    pub fn wait(&mut self, thread_id: usize) -> (r: Result<(), JvmError>)
        requires
            well_formed(old(self).state()),
        ensures
            final(self).state() == wait_result(old(self).state(), thread_id).0,
            well_formed(final(self).state()),
            r is Ok <==> wait_result(old(self).state(), thread_id).1,
            r is Err ==> r == Err::<(), JvmError>(monitor_error()),
    {
        if self.owner != Some(thread_id) {
            return Err(JvmError::ThreadingError(ThreadingError::IllegalMonitorState));
        }
        self.release_one();
        self.waiters.push_back(thread_id);
        Ok(())
    }

    /// Moves the first waiter to the back of the queue; fails on a free monitor.
    pub fn notify(&mut self) -> (r: Result<(), JvmError>)
        ensures
            old(self).state().owner is None ==> r == Err::<(), JvmError>(monitor_error())
                && final(self).state() == old(self).state(),
            old(self).state().owner is Some ==> r is Ok && final(self).state() == (
            MonitorState {
                waiters: if old(self).state().waiters.len() > 0 {
                    old(self).state().waiters.drop_first().push(old(self).state().waiters[0])
                } else {
                    old(self).state().waiters
                },
                ..old(self).state()
            }),
    {
        if self.owner.is_none() {
            return Err(JvmError::ThreadingError(ThreadingError::IllegalMonitorState));
        }
        if let Some(thread_id) = self.waiters.pop_front() {
            self.waiters.push_back(thread_id);
        }
        Ok(())
    }

    /// Empties the queue of waiters; fails on a free monitor.
    pub fn notify_all(&mut self) -> (r: Result<(), JvmError>)
        ensures
            old(self).state().owner is None ==> r == Err::<(), JvmError>(monitor_error())
                && final(self).state() == old(self).state(),
            old(self).state().owner is Some ==> r is Ok && final(self).state() == (
            MonitorState { waiters: Seq::empty(), ..old(self).state() }),
    {
        if self.owner.is_none() {
            return Err(JvmError::ThreadingError(ThreadingError::IllegalMonitorState));
        }
        self.waiters.clear();
        Ok(())
    }

    pub fn get_owner(&self) -> (r: Option<usize>)
        ensures
            r == self.state().owner,
    {
        self.owner
    }

    pub fn get_entry_count(&self) -> (r: usize)
        ensures
            r == self.state().entry_count,
    {
        self.entry_count
    }

    pub fn get_waiters_count(&self) -> (r: usize)
        ensures
            r == self.state().waiters.len(),
    {
        self.waiters.len()
    }

    pub fn is_owned(&self) -> (r: bool)
        ensures
            r == self.state().owner is Some,
    {
        self.owner.is_some()
    }
}

/// Every operation keeps an owned monitor's count positive and a free monitor's count zero.
pub proof fn law_monitor_operations_keep_well_formed(s: MonitorState, t: usize)
    requires
        well_formed(s),
    ensures
        well_formed(enter_result(s, t).0),
        well_formed(exit_result(s, t).0),
        well_formed(wait_result(s, t).0),
{
}

/// Entering and then exiting restores the monitor, for a thread that already owns
/// it or a free monitor that no thread waits on.
pub proof fn law_enter_then_exit_restores(s: MonitorState, t: usize)
    requires
        well_formed(s),
        s.owner == Some(t) || (s.owner is None && s.waiters.len() == 0),
    ensures
        enter_result(s, t).1,
        exit_result(enter_result(s, t).0, t).1,
        exit_result(enter_result(s, t).0, t).0 == s,
{
}

/// Only the owner can exit or wait; any other thread is refused and nothing changes.
pub proof fn law_only_owner_releases(s: MonitorState, t: usize)
    requires
        s.owner != Some(t),
    ensures
        !exit_result(s, t).1,
        exit_result(s, t).0 == s,
        !wait_result(s, t).1,
        wait_result(s, t).0 == s,
{
}

/// A thread refused entry is queued at the back, behind every earlier waiter.
pub proof fn law_contended_enter_queues(s: MonitorState, t: usize)
    requires
        s.owner is Some,
        s.owner != Some(t),
    ensures
        !enter_result(s, t).1,
        enter_result(s, t).0.waiters == s.waiters.push(t),
        enter_result(s, t).0.owner == s.owner,
{
}

/// When the owner's last exit leaves a queue, the first waiter becomes the owner.
pub proof fn law_last_exit_hands_over(s: MonitorState, t: usize)
    requires
        s.owner == Some(t),
        s.entry_count == 1,
        s.waiters.len() > 0,
    ensures
        exit_result(s, t).0.owner == Some(s.waiters[0]),
        exit_result(s, t).0.entry_count == 1,
        exit_result(s, t).0.waiters == s.waiters.drop_first(),
{
}

/// The monitor after `k` `monitorenter`s by `t`.
pub open spec fn enter_times(s: MonitorState, t: usize, k: nat) -> MonitorState
    decreases k,
{
    if k == 0 {
        s
    } else {
        enter_result(enter_times(s, t, (k - 1) as nat), t).0
    }
}

/// The monitor after `k` `monitorexit`s by `t`.
pub open spec fn exit_times(s: MonitorState, t: usize, k: nat) -> MonitorState
    decreases k,
{
    if k == 0 {
        s
    } else {
        exit_result(exit_times(s, t, (k - 1) as nat), t).0
    }
}

proof fn lemma_enters(s: MonitorState, t: usize, k: nat)
    requires
        well_formed(s),
        s.owner == Some(t) || s.owner is None,
    ensures
        k > 0 ==> enter_times(s, t, k) == (MonitorState { owner: Some(t), entry_count: s.entry_count + k, waiters: s.waiters }),
        forall|j: nat| j < k ==> #[trigger] enter_result(enter_times(s, t, j), t).1,
    decreases k,
{
    if k > 0 {
        lemma_enters(s, t, (k - 1) as nat);
        assert forall|j: nat| j < k implies #[trigger] enter_result(enter_times(s, t, j), t).1 by {
            if j < k - 1 {
            } else if j > 0 {
                assert(enter_times(s, t, j).owner == Some(t));
            }
        }
    }
}

proof fn lemma_exits(t: usize, c: nat, w: Seq<usize>, j: nat)
    requires
        c >= j + 1,
    ensures
        exit_times(MonitorState { owner: Some(t), entry_count: c, waiters: w }, t, j)
            == (MonitorState { owner: Some(t), entry_count: (c - j) as nat, waiters: w }),
    decreases j,
{
    if j > 0 {
        lemma_exits(t, c, w, (j - 1) as nat);
    }
}

/// `k` nested `monitorenter`s by `t` all succeed, and `k` `monitorexit`s after them
/// restore the monitor: for a monitor that `t` already owns, or a free one that no
/// thread waits on.
pub proof fn law_nested_enters_then_exits_restore(s: MonitorState, t: usize, k: nat)
    requires
        well_formed(s),
        s.owner == Some(t) || (s.owner is None && s.waiters.len() == 0),
    ensures
        forall|j: nat| j < k ==> #[trigger] enter_result(enter_times(s, t, j), t).1,
        k > 0 ==> enter_times(s, t, k).owner == Some(t) && enter_times(s, t, k).entry_count == s.entry_count + k,
        exit_times(enter_times(s, t, k), t, k) == s,
{
    lemma_enters(s, t, k);
    if k > 0 {
        let m = enter_times(s, t, k);
        if s.owner == Some(t) {
            lemma_exits(t, s.entry_count + k, s.waiters, k);
        } else {
            lemma_exits(t, k, s.waiters, (k - 1) as nat);
            assert(s.waiters =~= Seq::<usize>::empty());
        }
    }
}

} // verus!
