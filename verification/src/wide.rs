//! Fixed-width big-endian arithmetic for the 40-byte digest payload.
//!
//! A batch digest is the numeric sum of per-element digests, carried
//! right-aligned in a 40-byte big-endian word. This module gives the
//! mathematical reading of such a word (`be_nat`) and a verified in-place
//! addition that is exact as long as the sum stays below `pow2(320)`.

use vstd::prelude::*;
use vstd::arithmetic::power2::*;
use vstd::arithmetic::mul::*;
use vstd::arithmetic::div_mod::*;

verus! {

/// The number a big-endian byte string stands for.
pub open spec fn be_nat(s: Seq<u8>) -> nat
    decreases s.len(),
{
    if s.len() == 0 {
        0
    } else {
        (s[0] as nat) * pow2((8 * (s.len() - 1)) as nat) + be_nat(s.skip(1))
    }
}

/// A big-endian byte string of length n is below pow2(8 n).
pub proof fn lemma_be_nat_bound(s: Seq<u8>)
    ensures
        be_nat(s) < pow2(8 * s.len()),
    decreases s.len(),
{
    if s.len() == 0 {
        lemma_pow2_pos(0);
    } else {
        let p = pow2((8 * (s.len() - 1)) as nat);
        lemma_be_nat_bound(s.skip(1));
        lemma_pow2_adds(8, (8 * (s.len() - 1)) as nat);
        lemma2_to64();
        lemma_mul_inequality(s[0] as int, 255, p as int);
        assert(be_nat(s) <= 255 * p + be_nat(s.skip(1)));
        assert(255 * p + p == 256 * p);
    }
}

/// An all-zero byte string stands for zero.
pub proof fn lemma_be_nat_zero(s: Seq<u8>)
    requires
        forall|j: int| 0 <= j < s.len() ==> s[j] == 0,
    ensures
        be_nat(s) == 0,
    decreases s.len(),
{
    if s.len() > 0 {
        lemma_be_nat_zero(s.skip(1));
    }
}

/// Peeling the byte at position i off the tail that starts there.
pub proof fn lemma_be_nat_peel(s: Seq<u8>, i: int)
    requires
        0 <= i < s.len(),
    ensures
        be_nat(s.subrange(i, s.len() as int)) == (s[i] as nat) * pow2(
            (8 * (s.len() - 1 - i)) as nat,
        ) + be_nat(s.subrange(i + 1, s.len() as int)),
{
    let t = s.subrange(i, s.len() as int);
    assert(t.len() == s.len() - i);
    assert(t[0] == s[i]);
    assert(t.skip(1) =~= s.subrange(i + 1, s.len() as int));
}

/// Leading zero bytes do not change the value.
pub proof fn lemma_be_nat_pad(s: Seq<u8>, k: nat)
    requires
        k <= s.len(),
        forall|j: int| 0 <= j < k ==> s[j] == 0,
    ensures
        be_nat(s) == be_nat(s.subrange(k as int, s.len() as int)),
    decreases k,
{
    if k == 0 {
        assert(s.subrange(0, s.len() as int) =~= s);
    } else {
        let t = s.skip(1);
        assert(be_nat(s) == be_nat(t));
        assert(forall|j: int| 0 <= j < k - 1 ==> t[j] == 0) by {
            assert(forall|j: int| 0 <= j < k - 1 ==> t[j] == s[j + 1]);
        }
        lemma_be_nat_pad(t, (k - 1) as nat);
        assert(t.subrange(k - 1, t.len() as int) =~= s.subrange(k as int, s.len() as int));
    }
}

/// Growing a bounded accumulator by one more digest keeps the running sum
/// below pow2(320), as long as fewer than pow2(64) digests are added in all.
pub proof fn lemma_sum_step(x: nat, y: nat, k: nat)
    requires
        x <= k * (pow2(256) - 1),
        y < pow2(256),
        k < 0x10000000000000000,
    ensures
        x + y <= (k + 1) * (pow2(256) - 1),
        x + y < pow2(320),
{
    lemma2_to64();
    lemma_pow2_adds(64, 256);
    lemma_pow2_pos(256);
    lemma_mul_inequality((k + 1) as int, pow2(64) as int, (pow2(256) - 1) as int);
    assert(x + y <= (k + 1) * (pow2(256) - 1)) by {
        lemma_mul_is_distributive_add_other_way((pow2(256) - 1) as int, k as int, 1);
    }
    assert(pow2(64) * (pow2(256) - 1) == pow2(320) - pow2(64)) by {
        lemma_mul_is_distributive_sub(pow2(64) as int, pow2(256) as int, 1);
        lemma_pow2_adds(64, 256);
    }
    lemma_pow2_pos(64);
}

/// Two equal-width big-endian words with the same value are byte-identical:
/// a contract that fixes a digest's width and value fixes its bytes.
pub proof fn lemma_be_nat_injective(s: Seq<u8>, t: Seq<u8>)
    requires
        s.len() == t.len(),
        be_nat(s) == be_nat(t),
    ensures
        s == t,
    decreases s.len(),
{
    if s.len() == 0 {
        assert(s =~= t);
    } else {
        let p = pow2((8 * (s.len() - 1)) as nat);
        lemma_be_nat_bound(s.skip(1));
        lemma_be_nat_bound(t.skip(1));
        lemma_pow2_pos((8 * (s.len() - 1)) as nat);
        assert(s[0] == t[0]) by (nonlinear_arith)
            requires
                (s[0] as nat) * p + be_nat(s.skip(1)) == (t[0] as nat) * p + be_nat(t.skip(1)),
                be_nat(s.skip(1)) < p,
                be_nat(t.skip(1)) < p,
                p > 0,
        ;
        lemma_be_nat_injective(s.skip(1), t.skip(1));
        assert(s =~= t) by {
            assert(forall|i: int|
                1 <= i < s.len() ==> s[i] == s.skip(1)[i - 1] && t[i] == t.skip(1)[i - 1]);
        }
    }
}

/// The eight big-endian bytes of a 64-bit word.
pub open spec fn u64_be(x: u64) -> Seq<u8> {
    seq![
        (x >> 56) as u8,
        (x >> 48) as u8,
        (x >> 40) as u8,
        (x >> 32) as u8,
        (x >> 24) as u8,
        (x >> 16) as u8,
        (x >> 8) as u8,
        x as u8,
    ]
}

/// Produces the eight big-endian bytes of a 64-bit word.
pub fn u64_be_bytes(x: u64) -> (r: [u8; 8])
    ensures
        r@ == u64_be(x),
{
    let r: [u8; 8] = [
        (x >> 56) as u8,
        (x >> 48) as u8,
        (x >> 40) as u8,
        (x >> 32) as u8,
        (x >> 24) as u8,
        (x >> 16) as u8,
        (x >> 8) as u8,
        x as u8,
    ];
    proof {
        assert(r@ =~= u64_be(x));
    }
    r
}

/// Adds two 40-byte big-endian words; exact while the sum fits the width.
pub fn add_be(a: &[u8; 40], d: &[u8; 40]) -> (r: [u8; 40])
    requires
        be_nat(a@) + be_nat(d@) < pow2(320),
    ensures
        be_nat(r@) == be_nat(a@) + be_nat(d@),
{
    let mut r: [u8; 40] = *a;
    let mut i: usize = 40;
    let mut carry: u16 = 0;
    proof {
        assert(r@.subrange(40, 40) =~= Seq::<u8>::empty());
        assert(a@.subrange(40, 40) =~= Seq::<u8>::empty());
        assert(d@.subrange(40, 40) =~= Seq::<u8>::empty());
        assert(r@.subrange(0, 40) =~= a@.subrange(0, 40));
    }
    while i > 0
        invariant
            i <= 40,
            carry <= 1,
            r@.len() == 40,
            r@.subrange(0, i as int) == a@.subrange(0, i as int),
            be_nat(r@.subrange(i as int, 40)) + (carry as nat) * pow2((8 * (40 - i)) as nat)
                == be_nat(a@.subrange(i as int, 40)) + be_nat(d@.subrange(i as int, 40)),
        decreases i,
    {
        let ghost prev = r@;
        let ghost carry_in = carry as nat;
        i = i - 1;
        let ai: u8 = r[i];
        let di: u8 = d[i];
        let t: u32 = ai as u32 + di as u32 + carry as u32;
        r[i] = (t % 256) as u8;
        carry = (t / 256) as u16;
        proof {
            let ii = i as int;
            let p = pow2((8 * (39 - ii)) as nat);
            assert(ai == a@[ii]) by {
                assert(prev.subrange(0, ii + 1)[ii] == a@.subrange(0, ii + 1)[ii]);
            }
            assert(r@ == prev.update(ii, (t % 256) as u8));
            assert(r@.subrange(0, ii) =~= a@.subrange(0, ii)) by {
                assert(forall|j: int|
                    0 <= j < ii ==> r@[j] == prev[j] && prev.subrange(0, ii + 1)[j] == a@.subrange(
                        0,
                        ii + 1,
                    )[j]);
            }
            assert(r@.subrange(ii + 1, 40) =~= prev.subrange(ii + 1, 40));
            lemma_be_nat_peel(r@, ii);
            lemma_be_nat_peel(a@, ii);
            lemma_be_nat_peel(d@, ii);
            lemma_pow2_adds(8, (8 * (39 - ii)) as nat);
            lemma2_to64();
            assert(pow2((8 * (40 - ii)) as nat) == 256 * p);
            lemma_fundamental_div_mod(t as int, 256);
            assert(((t % 256) as u8) as nat == (t as nat) % 256);
            assert(t < 512);
            assert(t as nat / 256 <= 1) by (nonlinear_arith)
                requires
                    t < 512,
            ;
            let q = (t as nat) / 256;
            let m = (t as nat) % 256;
            assert((carry as nat) == q);
            assert(m * p + q * (256 * p) == (t as nat) * p) by (nonlinear_arith)
                requires
                    (t as nat) == 256 * q + m,
            ;
            assert((t as nat) * p == (ai as nat) * p + (di as nat) * p + carry_in * p)
                by (nonlinear_arith)
                requires
                    (t as nat) == (ai as nat) + (di as nat) + carry_in,
            ;
        }
    }
    proof {
        assert(r@.subrange(0, 40) =~= r@);
        assert(a@.subrange(0, 40) =~= a@);
        assert(d@.subrange(0, 40) =~= d@);
        if carry >= 1 {
            lemma_pow2_pos(320);
            assert((carry as nat) * pow2(320) >= pow2(320)) by (nonlinear_arith)
                requires
                    carry >= 1,
                    pow2(320) > 0,
            ;
            assert(false);
        }
    }
    r
}

} // verus!
