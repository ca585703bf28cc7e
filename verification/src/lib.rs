//! A throttling combinator for suspendable computations.
//!
//! [`Priority`] pairs a wrapped computation with a skip count `prio` and a
//! running counter `waited`. On each scheduling attempt the combinator either
//! forwards the attempt to the wrapped computation (once every `prio + 1`
//! attempts) or declines it and asks the scheduler to retry. A skip count of
//! zero forwards every attempt, so the wrapper behaves like the computation
//! itself; larger skip counts make the computation run at a lower priority
//! under a cooperative scheduler without any help from the scheduler.

use vstd::prelude::*;

pub mod cadence;

use crate::cadence::{forwards, next_waited};

verus! {

/// What one scheduling attempt on a [`Priority`] decides.
#[derive(Debug, PartialEq, Eq, Clone, Copy)]
pub enum PollStep {
    /// Forward the attempt: poll the wrapped computation exactly once,
    /// handing the scheduler's waker through unchanged.
    Forward,
    /// Decline the attempt: wake the task again immediately and report
    /// "not yet done" without touching the wrapped computation.
    Decline,
}

/// A wrapped computation that is polled only on every `prio + 1`-th
/// scheduling attempt.
pub struct Priority<T> {
    inner: T,
    prio: usize,
    waited: usize,
}

/// Ghost image of a [`Priority`]: the wrapped computation, the configured
/// skip count, and the attempts declined since the last forwarded one.
pub struct PriorityView<T> {
    /// The wrapped computation, untouched by everything but a forward.
    pub inner: T,
    /// How many consecutive attempts are declined between two forwards.
    pub prio: nat,
    /// Consecutive attempts declined since the last forwarded attempt.
    pub waited: nat,
}

impl<T> View for Priority<T> {
    type V = PriorityView<T>;

    closed spec fn view(&self) -> PriorityView<T> {
        PriorityView {
            inner: self.inner,
            prio: self.prio as nat,
            waited: self.waited as nat,
        }
    }
}

impl<T> Priority<T> {
    /// Between scheduling attempts the counter never runs past the skip count.
    pub open spec fn wf(self) -> bool {
        self@.waited <= self@.prio
    }

    /// Wrap `inner` with skip count `prio` and a fresh counter.
    /// Construction performs no scheduling attempt: `inner` comes out exactly
    /// as it went in, and nothing polls it until an attempt is forwarded.
    pub fn new(inner: T, prio: usize) -> (p: Priority<T>)
        ensures
            p@.inner == inner,
            p@.prio == prio,
            p@.waited == 0,
            p.wf(),
    {
        Priority { inner, prio, waited: 0 }
    }

    /// One scheduling attempt. With the counter at or past the skip count the
    /// attempt is forwarded: the counter starts over and the caller polls the
    /// wrapped computation exactly once, waker passed through unchanged.
    /// Otherwise the attempt is declined: the counter grows by one and the
    /// caller wakes the task itself and reports "not yet done" without
    /// touching the wrapped computation.
    pub fn poll_step(&mut self) -> (s: PollStep)
        ensures
            final(self)@.inner == old(self)@.inner,
            final(self)@.prio == old(self)@.prio,
            (s == PollStep::Forward) <==> forwards(old(self)@.prio, old(self)@.waited),
            final(self)@.waited == next_waited(old(self)@.prio, old(self)@.waited),
            s == PollStep::Forward ==> final(self)@.waited == 0,
            old(self).wf() ==> final(self).wf(),
    {
        let p = self.prio;
        advance(p, &mut self.waited)
    }

    /// The configured skip count.
    pub fn prio(&self) -> (p: usize)
        ensures
            p == self@.prio,
    {
        self.prio
    }

    /// How many consecutive scheduling attempts have been declined since the
    /// last forwarded one.
    pub fn waited(&self) -> (w: usize)
        ensures
            w == self@.waited,
    {
        self.waited
    }

    /// Take the combinator apart again: the wrapped computation — untouched
    /// by construction and by declined attempts — the skip count, and the
    /// counter.
    pub fn into_parts(self) -> (r: (T, usize, usize))
        ensures
            r.0 == self@.inner,
            r.1 == self@.prio,
            r.2 == self@.waited,
    {
        (self.inner, self.prio, self.waited)
    }
}

/// One scheduling attempt on the bare counter, for embedders that keep the
/// counter beside a computation the library cannot hold (for instance a
/// pinned one). Decides and updates exactly as [`Priority::poll_step`] does.
pub fn advance(prio: usize, waited: &mut usize) -> (s: PollStep)
    ensures
        (s == PollStep::Forward) <==> forwards(prio as nat, *old(waited) as nat),
        *final(waited) as nat == next_waited(prio as nat, *old(waited) as nat),
        s == PollStep::Forward ==> *final(waited) == 0,
{
    if *waited >= prio {
        *waited = 0;
        PollStep::Forward
    } else {
        *waited = *waited + 1;
        PollStep::Decline
    }
}

/// Wrapping a computation in a [`Priority`], as a postfix call.
pub trait PriorityExt: Sized {
    /// Wrap `self` with skip count `prio`: sugar for [`Priority::new`],
    /// with the same contract. A skip count of 0 leaves the behaviour of
    /// `self` unchanged; higher skip counts have it polled less often.
    fn priority(self, prio: usize) -> (p: Priority<Self>)
        ensures
            p@.inner == self,
            p@.prio == prio,
            p@.waited == 0,
            p.wf(),
    ;
}

impl<T> PriorityExt for T {
    fn priority(self, prio: usize) -> (p: Priority<T>) {
        Priority::new(self, prio)
    }
}

} // verus!
