//! The look-ahead protocol that every cursor of this crate follows, as a model.
//!
//! A cursor holds the record that the provider filled last, or nothing once the provider has
//! reported the end. Each step hands out the held record and keeps what the provider's advance
//! call filled next; a cursor that holds nothing asks the provider for nothing and stays empty.
use vstd::prelude::*;

verus! {

/// The record a cursor holds after one step, where the provider's advance call gave `fetched`
/// (`None`: the end of the list).
pub open spec fn advanced<R>(pending: Option<R>, fetched: Option<R>) -> Option<R> {
    match pending {
        Some(_) => fetched,
        None => None,
    }
}

/// What the provider's advance call gives while `rest` is still unread.
pub open spec fn provider_next<R>(rest: Seq<R>) -> Option<R> {
    if rest.len() > 0 {
        Some(rest[0])
    } else {
        None
    }
}

/// One step of draining a cursor that holds `pending` against a provider with `rest` unread:
/// the provider is asked to advance only while the cursor holds a record.
pub open spec fn drain_step<R>(pending: Option<R>, rest: Seq<R>) -> (Option<R>, Seq<R>) {
    if pending is Some {
        (advanced(pending, provider_next(rest)), if rest.len() > 0 { rest.drop_first() } else { rest })
    } else {
        (advanced(pending, None), rest)
    }
}

/// The cursor and the provider after `n` steps of draining.
pub open spec fn drained<R>(pending: Option<R>, rest: Seq<R>, n: nat) -> (Option<R>, Seq<R>)
    decreases n,
{
    if n == 0 {
        (pending, rest)
    } else {
        let (p, r) = drain_step(pending, rest);
        drained(p, r, (n - 1) as nat)
    }
}

/// Whether step number `n` of draining hands out a value (steps count from zero).
pub open spec fn yields_at<R>(pending: Option<R>, rest: Seq<R>, n: nat) -> bool {
    drained(pending, rest, n).0 is Some
}

/// A cursor that holds nothing stays empty and the provider's list is never touched again,
/// whatever the number of further steps.
pub proof fn lemma_exhausted_stays<R>(rest: Seq<R>, n: nat)
    ensures
        drained(None::<R>, rest, n) == (None::<R>, rest),
    decreases n,
{
    if n > 0 {
        lemma_exhausted_stays(rest, (n - 1) as nat);
    }
}

/// Draining terminates: a cursor that holds a record, over a provider with `rest` unread,
/// hands out exactly `rest.len() + 1` values, at steps `0..=rest.len()`, and after that holds
/// nothing at every later step, with the provider's list used up.
pub proof fn lemma_drain_terminates<R>(first: R, rest: Seq<R>, n: nat)
    ensures
        n <= rest.len() ==> yields_at(Some(first), rest, n),
        n > rest.len() ==> drained(Some(first), rest, n) == (None::<R>, Seq::<R>::empty()),
    decreases rest.len(),
{
    if rest.len() == 0 {
        if n > 0 {
            assert(drain_step(Some(first), rest) == (None::<R>, rest));
            lemma_exhausted_stays(rest, (n - 1) as nat);
            assert(rest =~= Seq::<R>::empty());
        }
    } else if n > 0 {
        assert(drain_step(Some(first), rest) == (Some(rest[0]), rest.drop_first()));
        lemma_drain_terminates(rest[0], rest.drop_first(), (n - 1) as nat);
    }
}

/// Once a step of draining hands out nothing, every later step hands out nothing too.
pub proof fn lemma_no_resurrection<R>(pending: Option<R>, rest: Seq<R>, n: nat, m: nat)
    requires
        !yields_at(pending, rest, n),
        n <= m,
    ensures
        !yields_at(pending, rest, m),
    decreases n,
{
    if n == 0 {
        assert(pending is None);
        lemma_exhausted_stays(rest, m);
    } else {
        let (p, r) = drain_step(pending, rest);
        lemma_no_resurrection(p, r, (n - 1) as nat, (m - 1) as nat);
    }
}

} // verus!
