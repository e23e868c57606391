//! Non-blocking results: an error type that adds a "would block" case to any
//! domain error, and the decisions that drive such results to completion in a
//! busy-waiting, a polling or a cooperatively suspending execution model.
use vstd::prelude::*;

pub mod adapt;
pub mod runs;

pub use adapt::{
    is_would_block, polled, resumed, settle, settle_while, settled, settled_while, try_nb, Await,
    Resumed,
};

verus! {

/// A non-blocking result.
pub type Result<T, E> = core::result::Result<T, Error<E>>;

/// A non-blocking error: a domain error, or the sign that the operation cannot
/// complete right now and should be tried again later.
#[derive(Clone, Copy, Debug, PartialEq, Eq, PartialOrd, Ord, Hash)]
pub enum Error<E> {
    /// A terminal error of the caller's domain.
    Other(E),
    /// The operation requires blocking behavior to complete.
    WouldBlock,
}

impl<E> Error<E> {
    /// Maps an `Error<E>` to an `Error<T>` by applying `op` to the payload of
    /// `Other`; `WouldBlock` is returned untouched and `op` is not called.
    pub fn map<T, F>(self, op: F) -> (r: Error<T>) where F: FnOnce(E) -> T
        requires
            self matches Error::Other(e) ==> op.requires((e,)),
        ensures
            match self {
                Error::Other(e) => r matches Error::Other(t) && op.ensures((e,), t),
                Error::WouldBlock => r is WouldBlock,
            },
    {
        match self {
            Error::Other(e) => Error::Other(op(e)),
            Error::WouldBlock => Error::WouldBlock,
        }
    }
}

impl<E> From<E> for Error<E> {
    /// A domain error is always a terminal `Other` error.
    fn from(error: E) -> (r: Error<E>)
        ensures
            r == Error::Other(error),
    {
        Error::Other(error)
    }
}

impl<E> vstd::std_specs::convert::FromSpecImpl<E> for Error<E> {
    open spec fn obeys_from_spec() -> bool {
        true
    }

    open spec fn from_spec(v: E) -> Error<E> {
        Error::Other(v)
    }
}

} // verus!
