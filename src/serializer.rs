//! The exclusive section that keeps two broadcasts of one signer from
//! overlapping, as a state machine that a caller drives under its own lock.

use vstd::prelude::*;

verus! {

/// Abstract state of the exclusive broadcast section.
pub struct SectionState {
    /// A task is inside the held section.
    pub running: bool,
    /// Tasks waiting to enter.
    pub waiting: nat,
}

/// Nobody inside the section and nobody waiting.
pub open spec fn idle_section() -> SectionState {
    SectionState { running: false, waiting: 0 }
}

/// The requests a task can make of the section.
#[derive(Clone, Copy, Debug, PartialEq, Eq, Structural)]
pub enum SectionOp {
    /// First attempt to enter; a task that is refused starts waiting.
    Start,
    /// A waiting task, woken up, tries again.
    Retry,
    /// A waiting task gives up (timeout, cancellation).
    Abandon,
    /// The task inside leaves the section.
    Complete,
}

/// Whether `op` may be issued in state `s`: only waiting tasks retry or abandon,
/// and only the task inside completes.
pub open spec fn op_allowed(s: SectionState, op: SectionOp) -> bool {
    match op {
        SectionOp::Start => true,
        SectionOp::Retry => s.waiting > 0,
        SectionOp::Abandon => s.waiting > 0,
        SectionOp::Complete => s.running,
    }
}

/// Whether `op` lets its task into the held section.
pub open spec fn granted(s: SectionState, op: SectionOp) -> bool {
    (op == SectionOp::Start || op == SectionOp::Retry) && !s.running
}

/// Whether completing in state `s` must wake one waiting task.
pub open spec fn wakes_one(s: SectionState) -> bool {
    s.waiting > 0
}

/// The state of the section after `op`.
pub open spec fn section_step(s: SectionState, op: SectionOp) -> SectionState {
    match op {
        SectionOp::Start => if !s.running {
            SectionState { running: true, waiting: s.waiting }
        } else {
            SectionState { running: true, waiting: s.waiting + 1 }
        },
        SectionOp::Retry => if !s.running {
            SectionState { running: true, waiting: (s.waiting - 1) as nat }
        } else {
            s
        },
        SectionOp::Abandon => SectionState { running: s.running, waiting: (s.waiting - 1) as nat },
        SectionOp::Complete => SectionState { running: false, waiting: s.waiting },
    }
}

/// The state reached from an idle section by the requests `ops`, in order.
pub open spec fn state_after(ops: Seq<SectionOp>) -> SectionState
    decreases ops.len(),
{
    if ops.len() == 0 {
        idle_section()
    } else {
        section_step(state_after(ops.drop_last()), ops.last())
    }
}

/// Every request of `ops` was allowed when it was made.
pub open spec fn trace_allowed(ops: Seq<SectionOp>) -> bool
    decreases ops.len(),
{
    ops.len() == 0 || (trace_allowed(ops.drop_last()) && op_allowed(
        state_after(ops.drop_last()),
        ops.last(),
    ))
}

/// How many tasks are inside the held section after `ops`: entries granted
/// minus completions.
pub open spec fn holders(ops: Seq<SectionOp>) -> int
    decreases ops.len(),
{
    if ops.len() == 0 {
        0
    } else {
        let before = state_after(ops.drop_last());
        holders(ops.drop_last()) + if granted(before, ops.last()) {
            1int
        } else if ops.last() == SectionOp::Complete {
            -1int
        } else {
            0int
        }
    }
}

/// Mutual exclusion: along any sequence of allowed requests from the idle
/// section, at most one task is inside the held section, and one is inside
/// exactly when the state says a transaction is running.
pub proof fn lemma_mutual_exclusion(ops: Seq<SectionOp>)
    requires
        trace_allowed(ops),
    ensures
        0 <= holders(ops) <= 1,
        holders(ops) == 1 <==> state_after(ops).running,
    decreases ops.len(),
{
    if ops.len() > 0 {
        lemma_mutual_exclusion(ops.drop_last());
    }
}

/// The exclusive section that serializes transaction broadcasts for one
/// signing key: who is inside, and how many wait.
#[derive(Debug)]
pub struct TxnSection {
    running: bool,
    waiting: u64,
}

impl View for TxnSection {
    type V = SectionState;

    closed spec fn view(&self) -> SectionState {
        SectionState { running: self.running, waiting: self.waiting as nat }
    }
}

impl TxnSection {
    /// An idle section.
    pub fn new() -> (r: TxnSection)
        ensures
            r@ == idle_section(),
    {
        TxnSection { running: false, waiting: 0 }
    }

    /// Whether a task is inside the held section.
    pub fn is_running(&self) -> (r: bool)
        ensures
            r == self@.running,
    {
        self.running
    }

    /// How many tasks wait to enter.
    pub fn waiting(&self) -> (r: u64)
        ensures
            r == self@.waiting,
    {
        self.waiting
    }

    /// First attempt to enter the held section: granted when nobody is
    /// inside; otherwise the caller is counted as waiting.
    pub fn txn_start(&mut self) -> (entered: bool)
        requires
            old(self)@.running ==> old(self)@.waiting < u64::MAX,
        ensures
            entered == granted(old(self)@, SectionOp::Start),
            final(self)@ == section_step(old(self)@, SectionOp::Start),
    {
        if !self.running {
            self.running = true;
            true
        } else {
            self.waiting = self.waiting + 1;
            false
        }
    }

    /// A woken waiter tries again: granted when nobody is inside, and the
    /// caller stops waiting.
    pub fn txn_retry(&mut self) -> (entered: bool)
        requires
            op_allowed(old(self)@, SectionOp::Retry),
        ensures
            entered == granted(old(self)@, SectionOp::Retry),
            final(self)@ == section_step(old(self)@, SectionOp::Retry),
    {
        if !self.running {
            self.running = true;
            self.waiting = self.waiting - 1;
            true
        } else {
            false
        }
    }

    /// A waiter gives up without entering.
    pub fn txn_abandon(&mut self)
        requires
            op_allowed(old(self)@, SectionOp::Abandon),
        ensures
            final(self)@ == section_step(old(self)@, SectionOp::Abandon),
    {
        self.waiting = self.waiting - 1;
    }

    /// The task inside leaves the section; the result says whether one
    /// waiting task must be woken.
    pub fn txn_complete(&mut self) -> (wake_one: bool)
        requires
            op_allowed(old(self)@, SectionOp::Complete),
        ensures
            wake_one == wakes_one(old(self)@),
            final(self)@ == section_step(old(self)@, SectionOp::Complete),
    {
        self.running = false;
        self.waiting > 0
    }
}

/// A chain client whose broadcasts are serialized through an exclusive
/// section, so that two
/// transactions of the same signer never race for a nonce.
pub struct SerializingMiddleware<M> {
    inner: M,
    section: TxnSection,
}

impl<M> SerializingMiddleware<M> {
    /// The client being serialized.
    pub closed spec fn inner_spec(&self) -> M {
        self.inner
    }

    /// The state of the section.
    pub closed spec fn section_spec(&self) -> SectionState {
        self.section@
    }

    /// Wraps `inner` with an idle section.
    pub fn new(inner: M) -> (r: Self)
        ensures
            r.inner_spec() == inner,
            r.section_spec() == idle_section(),
    {
        SerializingMiddleware { inner, section: TxnSection::new() }
    }

    /// The client being serialized.
    pub fn inner(&self) -> (r: &M)
        ensures
            *r == self.inner_spec(),
    {
        &self.inner
    }

    /// First attempt to enter the exclusive section (see [`TxnSection::txn_start`]).
    pub fn txn_start(&mut self) -> (entered: bool)
        requires
            old(self).section_spec().running ==> old(self).section_spec().waiting < u64::MAX,
        ensures
            entered == granted(old(self).section_spec(), SectionOp::Start),
            final(self).section_spec() == section_step(old(self).section_spec(), SectionOp::Start),
            final(self).inner_spec() == old(self).inner_spec(),
    {
        self.section.txn_start()
    }

    /// A woken waiter tries again (see [`TxnSection::txn_retry`]).
    pub fn txn_retry(&mut self) -> (entered: bool)
        requires
            op_allowed(old(self).section_spec(), SectionOp::Retry),
        ensures
            entered == granted(old(self).section_spec(), SectionOp::Retry),
            final(self).section_spec() == section_step(old(self).section_spec(), SectionOp::Retry),
            final(self).inner_spec() == old(self).inner_spec(),
    {
        self.section.txn_retry()
    }

    /// A waiter gives up without entering (see [`TxnSection::txn_abandon`]).
    pub fn txn_abandon(&mut self)
        requires
            op_allowed(old(self).section_spec(), SectionOp::Abandon),
        ensures
            final(self).section_spec() == section_step(
                old(self).section_spec(),
                SectionOp::Abandon,
            ),
            final(self).inner_spec() == old(self).inner_spec(),
    {
        self.section.txn_abandon()
    }

    /// The task inside leaves the section; the result says whether one
    /// waiting task must be woken (see [`TxnSection::txn_complete`]).
    pub fn txn_complete(&mut self) -> (wake_one: bool)
        requires
            op_allowed(old(self).section_spec(), SectionOp::Complete),
        ensures
            wake_one == wakes_one(old(self).section_spec()),
            final(self).section_spec() == section_step(
                old(self).section_spec(),
                SectionOp::Complete,
            ),
            final(self).inner_spec() == old(self).inner_spec(),
    {
        self.section.txn_complete()
    }

    /// Splits off the section, for a caller that keeps it under its own lock.
    pub fn into_parts(self) -> (r: (M, TxnSection))
        ensures
            r.0 == self.inner_spec(),
            r.1@ == self.section_spec(),
    {
        (self.inner, self.section)
    }
}

/// Errors of a serialized client.
#[derive(Debug)]
pub enum SerializingMiddlewareError<E> {
    /// The lock around the section could not be taken.
    MutexLockError,
    /// The underlying client failed.
    MiddlewareError(E),
    /// The operation is not offered by the serialized client.
    NotImplemented,
}

impl<E> SerializingMiddlewareError<E> {
    /// Wraps an error of the underlying client.
    pub fn from_err(src: E) -> (r: Self)
        ensures
            r == SerializingMiddlewareError::MiddlewareError(src),
    {
        SerializingMiddlewareError::MiddlewareError(src)
    }

    /// The error of the underlying client, if this is one.
    pub fn as_inner(&self) -> (r: Option<&E>)
        ensures
            match self {
                SerializingMiddlewareError::MiddlewareError(e) => r == Some(e),
                _ => r is None,
            },
    {
        match self {
            SerializingMiddlewareError::MiddlewareError(e) => Some(e),
            _ => None,
        }
    }
}

} // verus!
