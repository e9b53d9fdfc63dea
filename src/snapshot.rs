//! The snapshot cursor shared by every record kind.
use vstd::prelude::*;
use crate::cursor::advanced;
use crate::error::OsError;
use crate::records::TagTl32;

verus! {

/// The value the provider's open call returns in place of a handle when it fails.
pub const INVALID_HANDLE_VALUE: usize = usize::MAX;

/// A snapshot of one record kind: the snapshot handle it owns, and the record the provider
/// filled last, one ahead of what has been handed out (nothing once the provider has reported
/// the end of the list).
///
/// The owner performs the calls into the provider that this value asks for: it advances the
/// provider from the held record only while [`Snapshot::wants_advance`] is true, hands each
/// result to [`Snapshot::step`], and closes the handle that [`Snapshot::close`] gives back.
/// `close` consumes the snapshot, so the handle is given back for closing exactly once.
#[derive(Debug)]
pub struct Snapshot<T: TagTl32> {
    snapshot: usize,
    current: Option<T::Raw>,
}

impl<T: TagTl32> Snapshot<T> {
    /// A snapshot never holds the invalid-handle value.
    #[verifier::type_invariant]
    spec fn holds_valid_handle(&self) -> bool {
        self.snapshot != INVALID_HANDLE_VALUE
    }

    /// The snapshot handle.
    pub closed spec fn spec_handle(&self) -> usize {
        self.snapshot
    }

    /// The record held for the next step, if any.
    pub closed spec fn pending(&self) -> Option<T::Raw> {
        self.current
    }

    /// Whether the snapshot has reached the end of its list; it then stays there.
    pub open spec fn is_exhausted(&self) -> bool {
        self.pending() is None
    }

    /// Takes on the handle that the provider's open call returned, with `first`, the outcome
    /// of the provider's first call on it (`None` where that call failed). The invalid-handle
    /// value gives the error with `last_error`, the code that the system reported for the
    /// failed open. Any other handle gives a snapshot that holds `first`: one of another kind,
    /// or one that is not a snapshot at all, makes the first call fail and so gives a snapshot
    /// that is exhausted from the start.
    pub fn from_handle(snapshot: usize, first: Option<T::Raw>, last_error: i32) -> (r: Result<
        Self,
        OsError,
    >)
        ensures
            snapshot == INVALID_HANDLE_VALUE ==> r == Err::<Self, OsError>(OsError { code: last_error }),
            snapshot != INVALID_HANDLE_VALUE ==> (r matches Ok(s) && s.spec_handle() == snapshot
                && s.pending() == first),
    {
        if snapshot == INVALID_HANDLE_VALUE {
            Err(OsError::from_raw_os_error(last_error))
        } else {
            Ok(Snapshot { snapshot, current: first })
        }
    }

    /// Whether `snapshot` is a handle that the provider's first call may be made on.
    pub fn is_valid_handle(snapshot: usize) -> (r: bool)
        ensures
            r == (snapshot != INVALID_HANDLE_VALUE),
    {
        snapshot != INVALID_HANDLE_VALUE
    }

    /// The snapshot handle, for interoperation; the snapshot still owns it.
    pub fn handle(&self) -> (r: usize)
        ensures
            r == self.spec_handle(),
            r != INVALID_HANDLE_VALUE,
    {
        proof {
            use_type_invariant(self);
        }
        self.snapshot
    }

    /// Whether the provider is to be advanced before the next step: only while a record is
    /// held, never once the snapshot is exhausted.
    pub fn wants_advance(&self) -> (r: bool)
        ensures
            r == !self.is_exhausted(),
    {
        self.current.is_some()
    }

    /// The record held for the next step: the one to advance the provider from.
    pub fn current(&self) -> (r: Option<&T::Raw>)
        ensures
            r is Some <==> self.pending() is Some,
            r matches Some(raw) ==> *raw == self.pending()->Some_0,
    {
        match &self.current {
            Some(raw) => Some(raw),
            None => None,
        }
    }

    /// One step of the iteration. Where a record is held, hands out its safe value (mapped with
    /// `seed`) and keeps `fetched`, what the provider's advance call filled next (`None`: the
    /// end). An exhausted snapshot hands out nothing, ignores `fetched` and stays exhausted.
    pub fn step(&mut self, fetched: Option<T::Raw>, seed: T::Seed) -> (r: Option<T>)
        ensures
            final(self).spec_handle() == old(self).spec_handle(),
            final(self).pending() == advanced(old(self).pending(), fetched),
            r is Some <==> old(self).pending() is Some,
            r matches Some(e) ==> T::maps_to(old(self).pending()->Some_0, seed, e),
    {
        proof {
            use_type_invariant(&*self);
        }
        match &self.current {
            None => None,
            Some(raw) => {
                let val = T::from_raw(raw, seed);
                self.current = fetched;
                Some(val)
            },
        }
    }

    /// Ends the snapshot and gives back its handle, for the owner to close. The snapshot is
    /// consumed: no handle is given back twice.
    pub fn close(self) -> (r: usize)
        ensures
            r == self.spec_handle(),
            r != INVALID_HANDLE_VALUE,
    {
        proof {
            use_type_invariant(&self);
        }
        self.snapshot
    }
}

} // verus!
