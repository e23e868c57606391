//! Models of the loops that drive a non-blocking operation, fed with the
//! outcomes that the operation gives attempt after attempt, and the laws that
//! these loops obey.
use vstd::prelude::*;

use crate::adapt::{is_would_block, resumed, settled, settled_while, Resumed};
use crate::{Error, Result};

verus! {

/// `k` attempts that would block.
pub open spec fn would_blocks<T, E>(k: nat) -> Seq<Result<T, E>> {
    Seq::new(k, |i: int| Err(Error::WouldBlock))
}

/// `k` answers of a condition that still holds.
pub open spec fn still_waiting(k: nat) -> Seq<bool> {
    Seq::new(k, |i: int| true)
}

/// The blocking loop, retrying at once on `WouldBlock`, fed with the outcomes
/// `s`: the outcome it returns and how many attempts it made, or `None` when
/// `s` runs out first.
pub open spec fn block_run<T, E>(s: Seq<Result<T, E>>) -> Option<(core::result::Result<T, E>, nat)>
    decreases s.len(),
{
    if s.len() == 0 {
        None
    } else {
        match settled(s[0]) {
            Some(out) => Some((out, 1nat)),
            None => match block_run(s.drop_first()) {
                Some((out, n)) => Some((out, n + 1)),
                None => None,
            },
        }
    }
}

/// The loop that blocks while a condition holds, fed with the outcomes `s`
/// and the condition's answers `keep`: the outcome it returns, how many
/// attempts it made and how often it evaluated the condition, or `None` when
/// `s` or `keep` runs out first.
pub open spec fn block_while_run<T, E>(s: Seq<Result<T, E>>, keep: Seq<bool>) -> Option<
    (Result<T, E>, nat, nat),
>
    decreases s.len(),
{
    if s.len() == 0 {
        None
    } else if !is_would_block(s[0]) {
        Some((s[0], 1nat, 0nat))
    } else if keep.len() == 0 {
        None
    } else {
        match settled_while(s[0], keep[0]) {
            Some(out) => Some((out, 1nat, 1nat)),
            None => match block_while_run(s.drop_first(), keep.drop_first()) {
                Some((out, n, c)) => Some((out, n + 1, c + 1)),
                None => None,
            },
        }
    }
}

/// The states that a suspendable routine hands to its resumer when its
/// resumptions meet the outcomes `s`, up to and including its completion.
pub open spec fn await_run<T, E>(s: Seq<Result<T, E>>) -> Seq<Resumed<T, E>>
    decreases s.len(),
{
    if s.len() == 0 {
        Seq::empty()
    } else if resumed(s[0]) is Complete {
        seq![resumed(s[0])]
    } else {
        seq![Resumed::Suspended].add(await_run(s.drop_first()))
    }
}

/// `k` suspensions.
pub open spec fn suspensions<T, E>(k: nat) -> Seq<Resumed<T, E>> {
    Seq::new(k, |i: int| Resumed::Suspended)
}

/// Blocking on an operation that would block `k` times and then gives a value
/// or a domain error makes exactly `k + 1` attempts and returns that outcome;
/// whatever the operation would give later is never asked for.
pub proof fn lemma_block_after_would_blocks<T, E>(
    k: nat,
    last: Result<T, E>,
    rest: Seq<Result<T, E>>,
)
    requires
        !is_would_block(last),
    ensures
        last matches Ok(v) ==> block_run(would_blocks::<T, E>(k) + seq![last] + rest) == Some(
            (Ok::<T, E>(v), k + 1),
        ),
        last matches Err(Error::Other(e)) ==> block_run(would_blocks::<T, E>(k) + seq![last] + rest)
            == Some((Err::<T, E>(e), k + 1)),
    decreases k,
{
    let s = would_blocks::<T, E>(k) + seq![last] + rest;
    if k > 0 {
        lemma_block_after_would_blocks((k - 1) as nat, last, rest);
        assert(s.drop_first() =~= would_blocks::<T, E>((k - 1) as nat) + seq![last] + rest);
    }
    assert(s[k as int] == last);
}

/// Blocking while a condition holds on an operation that always would block,
/// with a condition that holds at its first `k - 1` evaluations and fails at
/// the `k`-th, makes exactly `k` attempts and `k` evaluations and ends with
/// `WouldBlock`, not with a domain error.
pub proof fn lemma_block_while_gives_up<T, E>(
    k: nat,
    later: Seq<Result<T, E>>,
    later_keep: Seq<bool>,
)
    requires
        k >= 1,
    ensures
        block_while_run(
            would_blocks::<T, E>(k) + later,
            still_waiting((k - 1) as nat) + seq![false] + later_keep,
        ) == Some((Err::<T, Error<E>>(Error::WouldBlock), k, k)),
    decreases k,
{
    let s = would_blocks::<T, E>(k) + later;
    let keep = still_waiting((k - 1) as nat) + seq![false] + later_keep;
    assert(is_would_block(s[0]));
    if k > 1 {
        lemma_block_while_gives_up((k - 1) as nat, later, later_keep);
        assert(s.drop_first() =~= would_blocks::<T, E>((k - 1) as nat) + later);
        assert(keep.drop_first() =~= still_waiting((k - 2) as nat) + seq![false] + later_keep);
    } else {
        assert(keep[0] == false);
    }
}

/// Blocking while a condition holds on an operation that would block `j`
/// times and then gives a value or a domain error, with a condition that holds
/// at those `j` evaluations, returns that outcome after `j + 1` attempts; the
/// condition is evaluated `j` times, never after the operation has settled.
pub proof fn lemma_block_while_settles<T, E>(
    j: nat,
    last: Result<T, E>,
    later: Seq<Result<T, E>>,
    later_keep: Seq<bool>,
)
    requires
        !is_would_block(last),
    ensures
        block_while_run(would_blocks::<T, E>(j) + seq![last] + later, still_waiting(j) + later_keep)
            == Some((last, j + 1, j)),
    decreases j,
{
    let s = would_blocks::<T, E>(j) + seq![last] + later;
    let keep = still_waiting(j) + later_keep;
    if j > 0 {
        lemma_block_while_settles((j - 1) as nat, last, later, later_keep);
        assert(s.drop_first() =~= would_blocks::<T, E>((j - 1) as nat) + seq![last] + later);
        assert(keep.drop_first() =~= still_waiting((j - 1) as nat) + later_keep);
        assert(keep[0]);
    }
    assert(s[j as int] == last);
}

/// A suspendable routine whose operation would block `k` times and then gives
/// a value or a domain error suspends exactly `k` times and completes with
/// that outcome at the `k + 1`-th resumption; with `k == 0` it never suspends.
pub proof fn lemma_await_suspends_per_would_block<T, E>(
    k: nat,
    last: Result<T, E>,
    later: Seq<Result<T, E>>,
)
    requires
        !is_would_block(last),
    ensures
        last matches Ok(v) ==> await_run(would_blocks::<T, E>(k) + seq![last] + later)
            == suspensions::<T, E>(k) + seq![Resumed::Complete(Ok::<T, E>(v))],
        last matches Err(Error::Other(e)) ==> await_run(would_blocks::<T, E>(k) + seq![last] + later)
            == suspensions::<T, E>(k) + seq![Resumed::Complete(Err::<T, E>(e))],
    decreases k,
{
    let s = would_blocks::<T, E>(k) + seq![last] + later;
    if k > 0 {
        lemma_await_suspends_per_would_block((k - 1) as nat, last, later);
        assert(s.drop_first() =~= would_blocks::<T, E>((k - 1) as nat) + seq![last] + later);
        assert(suspensions::<T, E>(k) =~= seq![Resumed::Suspended].add(
            suspensions::<T, E>((k - 1) as nat),
        ));
        assert(s[0] == Err::<T, Error<E>>(Error::WouldBlock));
    } else {
        assert(s[0] == last);
        assert(suspensions::<T, E>(0) =~= Seq::<Resumed<T, E>>::empty());
    }
    assert(s[k as int] == last);
}

} // verus!
