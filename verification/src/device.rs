//! The device context and its arenas ("highways").
//!
//! A context owns one capacity pool, shared by every arena created from it.
//! Reservation is atomic and all-or-nothing: a request either fully succeeds,
//! shrinking the shared remaining capacity by exactly its size, or fails and
//! leaves every counter unchanged. Nothing in this layer ever refunds
//! reserved capacity.

use vstd::prelude::*;
use crate::job::HighwayHashSum;

verus! {

// Status codes of the native device interface; zero means success.
pub const DELUGE_SUCCESS: i32 = 0;

pub const DELUGE_FAILURE: i32 = -1;

pub const DELUGE_NODEV: i32 = -2;

pub const DELUGE_OUT_OF_GMEM: i32 = -3;

pub const DELUGE_OUT_OF_LMEM: i32 = -4;

pub const DELUGE_CANCEL: i32 = -5;

/// The pool capacity, in elements, that a fresh context starts with.
pub const DEFAULT_POOL_CAPACITY: usize = 1024;

/// Failure kinds of the device layer; every fallible operation of this
/// module and of `job` reports one of these.
#[derive(Clone, Copy, Debug, PartialEq, Eq, Structural)]
pub enum Error {
    /// Implementation or driver fault, not attributable to caller input.
    Failure,
    /// No suitable compute device.
    NoDev,
    /// Not enough device-global memory.
    OutOfGmem,
    /// Not enough device-local memory.
    OutOfLmem,
    /// Job canceled by the backend.
    Cancel,
}

/// The total mapping from a native status code to the failure taxonomy:
/// any unrecognized code maps to `Failure`, never to silent success.
pub open spec fn spec_code_to_err(code: i32) -> Error {
    if code == DELUGE_NODEV {
        Error::NoDev
    } else if code == DELUGE_OUT_OF_GMEM {
        Error::OutOfGmem
    } else if code == DELUGE_OUT_OF_LMEM {
        Error::OutOfLmem
    } else if code == DELUGE_CANCEL {
        Error::Cancel
    } else {
        Error::Failure
    }
}

/// Maps a native status code to its failure kind.
pub fn code_to_err(code: i32) -> (e: Error)
    ensures
        e == spec_code_to_err(code),
{
    if code == DELUGE_NODEV {
        Error::NoDev
    } else if code == DELUGE_OUT_OF_GMEM {
        Error::OutOfGmem
    } else if code == DELUGE_OUT_OF_LMEM {
        Error::OutOfLmem
    } else if code == DELUGE_CANCEL {
        Error::Cancel
    } else {
        Error::Failure
    }
}

/// Whether a reservation of n units succeeds against a pool with the given
/// remaining capacity: exactly when n does not exceed it.
pub open spec fn alloc_would_succeed(remaining: nat, n: nat) -> bool {
    n <= remaining
}

/// After a successful reservation of n against remaining capacity c, exactly
/// c - n remains, and a further request of c - n + 1 units must fail.
pub proof fn lemma_alloc_exhausts(c: nat, n: nat)
    requires
        alloc_would_succeed(c, n),
    ensures
        !alloc_would_succeed((c - n) as nat, (c - n + 1) as nat),
{
}

/// Sibling arenas draw from one shared pool: once its whole remaining
/// capacity c is reserved, a request of one or more units by any sibling
/// fails — and keeps failing, since no operation of this layer refunds
/// capacity.
pub proof fn lemma_sibling_starved(c: nat, n: nat)
    requires
        n >= 1,
    ensures
        !alloc_would_succeed((c - c) as nat, n),
{
}

/// A device context: the owning handle to one compute backend instance and
/// the capacity pool shared by every arena created from it.
pub struct Deluge {
    total: usize,
    remaining: usize,
}

impl Deluge {
    /// The pool's total capacity, in elements.
    pub closed spec fn spec_total(&self) -> nat {
        self.total as nat
    }

    /// The pool's remaining reservable capacity, in elements.
    pub closed spec fn spec_remaining(&self) -> nat {
        self.remaining as nat
    }

    /// The sum reserved by all arenas of this pool never exceeds its total.
    pub open spec fn wf(&self) -> bool {
        self.spec_remaining() <= self.spec_total()
    }

    /// Acquires a context over the default pool capacity; its pool starts
    /// fully unreserved.
    pub fn new() -> (r: Result<Self, Error>)
        ensures
            r is Ok,
            r matches Ok(c) ==> c.wf() && c.spec_total() == DEFAULT_POOL_CAPACITY
                && c.spec_remaining() == c.spec_total(),
    {
        Ok(Self::with_capacity(DEFAULT_POOL_CAPACITY))
    }

    /// A context whose pool holds the given capacity, fully unreserved.
    pub fn with_capacity(total: usize) -> (c: Self)
        ensures
            c.wf(),
            c.spec_total() == total,
            c.spec_remaining() == total,
    {
        Deluge { total, remaining: total }
    }

    /// Creates an arena bound to this context, configured with the given
    /// hash key. Arenas are mutually independent except that they reserve
    /// from this context's one shared pool, which this call leaves untouched.
    pub fn new_highway(&mut self, key: &[u64; 4]) -> (r: Result<Highway, Error>)
        ensures
            *final(self) == *old(self),
            r is Ok,
            r matches Ok(h) ==> h.spec_key() == key@,
    {
        Ok(Highway { key: *key })
    }
}

/// An arena: a keyed unit against which job batches reserve device memory
/// from its context's shared pool.
pub struct Highway {
    key: [u64; 4],
}

impl Highway {
    /// The key configuring the hash family for all jobs built from this
    /// arena.
    pub closed spec fn spec_key(&self) -> Seq<u64> {
        self.key@
    }

    pub(crate) fn key_bytes(&self) -> (k: [u64; 4])
        ensures
            k@ == self.spec_key(),
    {
        self.key
    }

    /// Remaining reservable capacity on the shared pool, as observed right
    /// now. Advisory only: a sibling's reservation may shrink it before the
    /// caller acts on the value; a subsequent `alloc` failure is
    /// authoritative.
    pub fn space(&self, pool: &Deluge) -> (n: usize)
        ensures
            n == pool.spec_remaining(),
    {
        pool.remaining
    }

    /// Reserves len units against the shared pool: all or nothing. Succeeds
    /// exactly when len does not exceed the remaining capacity, which then
    /// shrinks by exactly len and is never refunded within this layer; on
    /// failure every counter is left unchanged.
    pub fn reserve(&mut self, pool: &mut Deluge, len: usize) -> (r: Result<(), Error>)
        requires
            old(pool).wf(),
        ensures
            *final(self) == *old(self),
            final(pool).wf(),
            final(pool).spec_total() == old(pool).spec_total(),
            final(pool).spec_remaining() <= old(pool).spec_remaining(),
            alloc_would_succeed(old(pool).spec_remaining(), len as nat) ==> r is Ok
                && final(pool).spec_remaining() == old(pool).spec_remaining() - len,
            !alloc_would_succeed(old(pool).spec_remaining(), len as nat)
                ==> r == Err::<(), Error>(Error::OutOfGmem) && *final(pool) == *old(pool),
    {
        if len <= pool.remaining {
            pool.remaining = pool.remaining - len;
            Ok(())
        } else {
            Err(Error::OutOfGmem)
        }
    }

    /// Builds a dispatch job over this arena's key and the given input
    /// elements. Allocates no device memory itself: the caller is
    /// responsible for having reserved enough capacity beforehand.
    pub fn hashsum(&self, elems: &[u64]) -> (job: HighwayHashSum)
        ensures
            job.wf(),
            job.spec_state() is Created,
            job.spec_key() == self.spec_key(),
            job.spec_elems() == elems@,
            job.spec_submissions() == 0,
    {
        HighwayHashSum::new(self, elems)
    }
}

} // verus!
