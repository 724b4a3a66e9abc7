//! Batches of 64-bit keyed-hash jobs settled to one fixed-width digest.
//!
//! A dispatch unit carries a 32-byte key. Scheduling a batch produces a
//! future settled to the 40-byte big-endian sum of the elements' digests,
//! where each element's digest is the keyed hash of its big-endian encoding,
//! right-aligned with zero padding.

use vstd::prelude::*;
use vstd::arithmetic::power2::pow2;
use crate::wide::{
    be_nat, u64_be, u64_be_bytes, add_be, lemma_be_nat_zero, lemma_be_nat_pad, lemma_be_nat_bound,
    lemma_sum_step,
};

verus! {

// Status codes of the native wide-hash interface; zero means success.
pub const DELUGE_SUCCESS: i32 = 0;

pub const DELUGE_FAILURE: i32 = -1;

pub const DELUGE_NODEV: i32 = -2;

pub const DELUGE_NOMEM: i32 = -3;

pub const DELUGE_CANCEL: i32 = -4;

/// Failure kinds of the dispatch layer; every fallible operation of this
/// module reports one of these.
#[derive(Clone, Copy, Debug, PartialEq, Eq, Structural)]
pub enum Error {
    /// Implementation or driver fault, not attributable to caller input.
    Failure,
    /// No suitable compute device.
    NoDev,
    /// Not enough memory.
    NoMem,
    /// Job canceled by the backend.
    Cancel,
}

/// The total mapping from a native status code to the failure taxonomy:
/// any unrecognized code maps to `Failure`, never to silent success.
pub open spec fn spec_code_to_err(code: i32) -> Error {
    if code == DELUGE_NODEV {
        Error::NoDev
    } else if code == DELUGE_NOMEM {
        Error::NoMem
    } else if code == DELUGE_CANCEL {
        Error::Cancel
    } else {
        Error::Failure
    }
}

/// Maps a native status code to its failure kind.
pub fn code_to_err(code: i32) -> (e: Error)
    ensures
        e == spec_code_to_err(code),
{
    if code == DELUGE_NODEV {
        Error::NoDev
    } else if code == DELUGE_NOMEM {
        Error::NoMem
    } else if code == DELUGE_CANCEL {
        Error::Cancel
    } else {
        Error::Failure
    }
}

/// What the keyed hash primitive returns for a key and a message: a function
/// of the two byte strings alone.
pub uninterp spec fn blake3_keyed(key: Seq<u8>, msg: Seq<u8>) -> Seq<u8>;

/// Relies on blake3::keyed_hash: the 32-byte keyed digest of a message,
/// determined by the key and message bytes alone.
#[verifier::external_body]
fn keyed_digest(key: &[u8; 32], msg: &[u8]) -> (r: [u8; 32])
    ensures
        r@ == blake3_keyed(key@, msg@),
{
    *blake3::keyed_hash(key, msg).as_bytes()
}

/// One element's digest: the 32-byte keyed hash of its big-endian encoding,
/// right-aligned in a 40-byte word with zero padding.
pub open spec fn single_digest(key: Seq<u8>, elem: u64) -> Seq<u8> {
    seq![0u8, 0u8, 0u8, 0u8, 0u8, 0u8, 0u8, 0u8] + blake3_keyed(key, u64_be(elem))
}

/// The batch digest value: the numeric sum of the elements' digests.
pub open spec fn digest_sum(key: Seq<u8>, elems: Seq<u64>) -> nat
    decreases elems.len(),
{
    if elems.len() == 0 {
        0
    } else {
        digest_sum(key, elems.drop_last()) + be_nat(single_digest(key, elems.last()))
    }
}

proof fn lemma_digest_sum_push(key: Seq<u8>, elems: Seq<u64>, i: int)
    requires
        0 <= i < elems.len(),
    ensures
        digest_sum(key, elems.subrange(0, i + 1)) == digest_sum(key, elems.subrange(0, i))
            + be_nat(single_digest(key, elems[i])),
{
    let t = elems.subrange(0, i + 1);
    assert(t.drop_last() =~= elems.subrange(0, i));
    assert(t.last() == elems[i]);
}

/// A keyed dispatch unit: every job scheduled from it hashes with its key.
pub struct Dispatch {
    key: [u8; 32],
}

impl Dispatch {
    /// The key this dispatch unit was created with.
    pub closed spec fn spec_key(&self) -> Seq<u8> {
        self.key@
    }

    /// Creates a dispatch unit for the keyed wide hash over the given key.
    pub fn new_blake3(key: &[u8; 32]) -> (r: Result<Self, Error>)
        ensures
            r is Ok,
            r matches Ok(d) ==> d.spec_key() == key@,
    {
        Ok(Self { key: *key })
    }

    /// Schedules a batch: the returned future is settled to its digest sum.
    pub fn schedule(&self, elems: &[u64]) -> (f: Future)
        ensures
            f.spec_result().len() == 40,
            be_nat(f.spec_result()) == digest_sum(self.spec_key(), elems@),
    {
        Future::new(self, elems)
    }
}

/// A settled single-result future over one batch digest.
pub struct Future {
    result: [u8; 40],
}

impl Future {
    /// The fixed-width digest this future is settled to.
    pub closed spec fn spec_result(&self) -> Seq<u8> {
        self.result@
    }

    /// Computes the batch digest: per-element keyed digests, summed as
    /// 320-bit big-endian numbers. The sum cannot overflow the width, since
    /// each digest is below pow2(256) and a batch holds fewer than pow2(64)
    /// elements.
    pub fn new(dispatch: &Dispatch, elems: &[u64]) -> (f: Self)
        ensures
            f.spec_result().len() == 40,
            be_nat(f.spec_result()) == digest_sum(dispatch.spec_key(), elems@),
    {
        let mut acc: [u8; 40] = [0u8; 40];
        proof {
            lemma_be_nat_zero(acc@);
            assert(elems@.subrange(0, 0) =~= Seq::<u64>::empty());
        }
        let n = elems.len();
        let mut i: usize = 0;
        while i < n
            invariant
                i <= n,
                n == elems@.len(),
                acc@.len() == 40,
                be_nat(acc@) == digest_sum(dispatch.spec_key(), elems@.subrange(0, i as int)),
                be_nat(acc@) <= i * (pow2(256) - 1),
            decreases n - i,
        {
            let d = Self::hash_single(dispatch, elems[i]);
            proof {
                assert(forall|j: int| 0 <= j < 8 ==> d@[j] == 0);
                lemma_be_nat_pad(d@, 8);
                lemma_be_nat_bound(d@.subrange(8, 40));
                lemma_sum_step(be_nat(acc@), be_nat(d@), i as nat);
                lemma_digest_sum_push(dispatch.spec_key(), elems@, i as int);
            }
            acc = add_be(&acc, &d);
            i = i + 1;
        }
        proof {
            assert(elems@.subrange(0, n as int) =~= elems@);
        }
        Future { result: acc }
    }

    /// One element's 40-byte digest: eight zero bytes, then the 32-byte
    /// keyed hash of the element's big-endian encoding.
    fn hash_single(dispatch: &Dispatch, elem: u64) -> (r: [u8; 40])
        ensures
            r@ == single_digest(dispatch.spec_key(), elem),
    {
        let msg = u64_be_bytes(elem);
        let h = keyed_digest(&dispatch.key, msg.as_slice());
        let mut r: [u8; 40] = [0u8; 40];
        let mut i: usize = 0;
        while i < 32
            invariant
                i <= 32,
                r@.len() == 40,
                h@ == blake3_keyed(dispatch.spec_key(), u64_be(elem)),
                forall|j: int| 0 <= j < 8 ==> r@[j] == 0,
                forall|j: int| 8 <= j < 8 + i ==> r@[j] == h@[j - 8],
            decreases 32 - i,
        {
            r[8 + i] = h[i];
            i = i + 1;
        }
        proof {
            assert(r@ =~= single_digest(dispatch.spec_key(), elem));
        }
        r
    }

    /// Reads the settled result: always ready, identical on every call, any
    /// number of times.
    pub fn poll(&self) -> (r: Result<[u8; 40], Error>)
        ensures
            r matches Ok(d) && d@ == self.spec_result(),
    {
        Ok(self.result)
    }
}

} // verus!
