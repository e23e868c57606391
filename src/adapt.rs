//! The decisions of the four ways of driving a non-blocking operation to
//! completion: busy-waiting, busy-waiting while a condition holds, polling,
//! and cooperative suspension.
use vstd::prelude::*;

use crate::{Error, Result};

verus! {

/// `futures::Async`, the readiness part of `futures::Poll` (`Ready(T)` or
/// `NotReady`), declared with its variants so that poll results can be built
/// and matched here.
#[verifier::external_type_specification]
#[verifier::reject_recursive_types(T)]
pub struct ExAsync<T>(futures::Async<T>);

/// Whether an attempt asks to be tried again later.
pub open spec fn is_would_block<T, E>(r: Result<T, E>) -> bool {
    r matches Err(Error::WouldBlock)
}

/// What an attempt settles to for a driver that only finishes with a value or
/// a domain error: `None` means "try again".
pub open spec fn settled<T, E>(r: Result<T, E>) -> Option<core::result::Result<T, E>> {
    match r {
        Ok(x) => Some(Ok(x)),
        Err(Error::Other(e)) => Some(Err(e)),
        Err(Error::WouldBlock) => None,
    }
}

/// Decides one round of a blocking (or suspending) loop: a value or a domain
/// error ends the loop with that outcome, `WouldBlock` asks for another
/// attempt (`None`).
pub fn settle<T, E>(r: Result<T, E>) -> (s: Option<core::result::Result<T, E>>)
    ensures
        s == settled(r),
{
    match r {
        Ok(x) => Some(Ok(x)),
        Err(Error::Other(e)) => Some(Err(e)),
        Err(Error::WouldBlock) => None,
    }
}

/// What an attempt settles to for a driver that keeps waiting only while its
/// condition holds: `None` means "try again".
pub open spec fn settled_while<T, E>(r: Result<T, E>, keep_waiting: bool) -> Option<Result<T, E>> {
    if is_would_block(r) && keep_waiting {
        None
    } else {
        Some(r)
    }
}

/// Decides one round of a loop that blocks while a condition holds. A value or
/// a domain error ends the loop as it is, without looking at the condition.
/// On `WouldBlock` the condition is evaluated once: while it holds another
/// attempt is asked for (`None`), else the loop ends with `WouldBlock`.
pub fn settle_while<T, E, C>(r: Result<T, E>, keep_waiting: C) -> (s: Option<Result<T, E>>) where
    C: FnOnce() -> bool,

    requires
        is_would_block(r) ==> keep_waiting.requires(()),
    ensures
        !is_would_block(r) ==> s == Some(r),
        is_would_block(r) ==> exists|keep: bool|
            #[trigger] keep_waiting.ensures((), keep) && s == settled_while(r, keep),
{
    match r {
        Err(Error::WouldBlock) => {
            let keep = keep_waiting();
            let s = if keep {
                None
            } else {
                Some(Err(Error::WouldBlock))
            };
            assert(keep_waiting.ensures((), keep) && s == settled_while(r, keep));
            s
        },
        _ => Some(r),
    }
}

/// What an attempt becomes inside a function that returns a
/// `futures::Poll<U, E>`: a value to go on with (`Ok`), or what that function
/// returns at once (`Err`).
pub open spec fn polled<T, U, E>(r: Result<T, E>) -> core::result::Result<T, futures::Poll<U, E>> {
    match r {
        Ok(x) => Ok(x),
        Err(Error::Other(e)) => Err(Err(e)),
        Err(Error::WouldBlock) => Err(Ok(futures::Async::NotReady)),
    }
}

/// Inspects one attempt inside a poll function, without looping: a value is
/// handed back to continue with; a domain error, or "not ready" for
/// `WouldBlock`, is the poll function's early return.
pub fn try_nb<T, U, E>(r: Result<T, E>) -> (s: core::result::Result<T, futures::Poll<U, E>>)
    ensures
        s == polled::<T, U, E>(r),
{
    match r {
        Ok(x) => Ok(x),
        Err(Error::Other(e)) => Err(Err(e)),
        Err(Error::WouldBlock) => Err(Ok(futures::Async::NotReady)),
    }
}

/// The state that a suspendable routine hands back to its resumer.
#[derive(Debug, PartialEq, Eq)]
pub enum Resumed<T, E> {
    /// The operation would block: the routine has suspended and must be
    /// resumed again to make progress.
    Suspended,
    /// The routine has finished with a value or a domain error.
    Complete(core::result::Result<T, E>),
}

/// What one resumption of a suspendable routine yields for an attempt.
pub open spec fn resumed<T, E>(r: Result<T, E>) -> Resumed<T, E> {
    match settled(r) {
        Some(out) => Resumed::Complete(out),
        None => Resumed::Suspended,
    }
}

/// A cooperatively suspending routine around a non-blocking operation. Each
/// resumption makes exactly one attempt; `WouldBlock` costs exactly one
/// suspension before the next attempt. It never spins and has no timeout: a
/// driver that stops resuming it cancels it.
pub struct Await<T, E, F> {
    producer: F,
    attempts: Ghost<Seq<Result<T, E>>>,
}

impl<T, E, F> Await<T, E, F> where F: FnMut() -> Result<T, E> {
    /// The non-blocking operation that each resumption attempts.
    pub closed spec fn producer(&self) -> F {
        self.producer
    }

    /// The outcomes of the attempts made so far, oldest first.
    pub closed spec fn attempts(&self) -> Seq<Result<T, E>> {
        self.attempts@
    }

    /// A routine that has not been resumed yet.
    pub fn new(producer: F) -> (a: Self)
        ensures
            a.producer() == producer,
            a.attempts() == Seq::<Result<T, E>>::empty(),
    {
        Await { producer, attempts: Ghost(Seq::empty()) }
    }

    /// Resumes the routine: attempts the operation once and suspends on
    /// `WouldBlock`, or completes with its value or domain error.
    pub fn resume(&mut self) -> (s: Resumed<T, E>)
        requires
            old(self).producer().requires(()),
        ensures
            final(self).producer() == old(self).producer(),
            final(self).attempts().len() == old(self).attempts().len() + 1,
            final(self).attempts().drop_last() == old(self).attempts(),
            old(self).producer().ensures((), final(self).attempts().last()),
            s == resumed(final(self).attempts().last()),
    {
        let r = (self.producer)();
        let ghost prev = self.attempts@;
        self.attempts = Ghost(prev.push(r));
        proof {
            assert(self.attempts@.drop_last() =~= prev);
        }
        match settle(r) {
            Some(out) => Resumed::Complete(out),
            None => Resumed::Suspended,
        }
    }
}

} // verus!
