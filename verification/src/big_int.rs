//! Unbounded-precision integers.
//!
//! Several document fields (masks, offsets, base addresses) are sized to
//! the described architecture's width, which can exceed 64 bits, so the
//! document model must never truncate a numeric field.  A [`BigInt`] is a
//! sign-and-magnitude integer whose magnitude is a little-endian vector
//! of 32-bit limbs; its mathematical value (the view) is an unbounded
//! `int`.
//!
//! Canonical form -- no trailing zero limb, and the negative flag only
//! on a nonzero magnitude -- is the type invariant, so it holds of every
//! value: the representation of a value is unique
//! ([`lemma_wf_value_injective`]), and equal mathematical values are
//! structurally equal.

use vstd::prelude::*;
use vstd::arithmetic::power2::{pow2, lemma_pow2_adds, lemma_pow2_pos, lemma2_to64};
use vstd::arithmetic::div_mod::lemma_fundamental_div_mod;

verus! {

broadcast use vstd::seq::group_seq_axioms, vstd::std_specs::vec::group_vec_axioms;

/// An arbitrary-precision signed integer.
#[derive(Debug, PartialEq, Eq)]
pub struct BigInt {
    neg: bool,
    limbs: Vec<u32>,
}

/// The magnitude encoded by a little-endian limb sequence.
pub open spec fn limbs_val(s: Seq<u32>) -> int
    decreases s.len(),
{
    if s.len() == 0 {
        0
    } else {
        limbs_val(s.drop_last()) + s.last() * pow2((32 * (s.len() - 1)) as nat)
    }
}

impl BigInt {
    /// The sign: true for values strictly below zero.
    pub closed spec fn sign(self) -> bool {
        self.neg
    }

    /// The magnitude, as little-endian base-2^32 limbs.
    pub closed spec fn magnitude(self) -> Seq<u32> {
        self.limbs@
    }

    /// Canonical form: no trailing zero limb; a sign only on a nonzero
    /// magnitude.  As the type invariant, it holds of every value.
    #[verifier::type_invariant]
    pub open spec fn wf(self) -> bool {
        (self.magnitude().len() > 0 ==> self.magnitude().last() != 0) && (self.sign()
            ==> self.magnitude().len() > 0)
    }

    /// The mathematical value.
    pub open spec fn val(self) -> int {
        if self.sign() {
            -limbs_val(self.magnitude())
        } else {
            limbs_val(self.magnitude())
        }
    }

    /// Wrap a canonical magnitude with a sign; a zero magnitude always
    /// yields the value zero, whatever the requested sign.
    pub fn from_sign_magnitude(neg_sign: bool, limbs: Vec<u32>) -> (r: BigInt)
        requires
            limbs@.len() > 0 ==> limbs@.last() != 0,
        ensures
            r.wf(),
            r@ == if neg_sign {
                -limbs_val(limbs@)
            } else {
                limbs_val(limbs@)
            },
    {
        let neg = neg_sign && limbs.len() > 0;
        BigInt { neg, limbs }
    }

    /// Zero.
    pub fn zero() -> (r: BigInt)
        ensures
            r.wf(),
            r@ == 0,
    {
        BigInt { neg: false, limbs: Vec::new() }
    }

    /// The value of a 64-bit unsigned integer.
    pub fn from_u64(v: u64) -> (r: BigInt)
        ensures
            r.wf(),
            r@ == v,
    {
        let mut limbs: Vec<u32> = Vec::new();
        let low: u32 = (v % 0x1_0000_0000) as u32;
        let high: u32 = (v / 0x1_0000_0000) as u32;
        proof {
            lemma2_to64();
            lemma_fundamental_div_mod(v as int, 0x1_0000_0000);
            assert(v == high * 0x1_0000_0000 + low);
        }
        if high != 0 {
            limbs.push(low);
            limbs.push(high);
            proof {
                assert(limbs@.drop_last() =~= seq![low]);
                assert(seq![low].drop_last() =~= Seq::<u32>::empty());
                assert(limbs_val(Seq::<u32>::empty()) == 0);
                assert(low * pow2(0) == low) by (nonlinear_arith)
                    requires
                        pow2(0) == 1,
                ;
                assert(limbs_val(seq![low]) == low);
                assert(high * pow2(32) == high * 0x1_0000_0000) by (nonlinear_arith)
                    requires
                        pow2(32) == 0x1_0000_0000,
                ;
                assert(limbs_val(limbs@) == low + high * 0x1_0000_0000);
            }
            BigInt { neg: false, limbs }
        } else if low != 0 {
            limbs.push(low);
            proof {
                assert(limbs@.drop_last() =~= Seq::<u32>::empty());
                assert(limbs_val(Seq::<u32>::empty()) == 0);
                assert(low * pow2(0) == low) by (nonlinear_arith)
                    requires
                        pow2(0) == 1,
                ;
            }
            BigInt { neg: false, limbs }
        } else {
            BigInt { neg: false, limbs }
        }
    }

    /// The same magnitude with the opposite sign.
    pub fn negated(self) -> (r: BigInt)
        ensures
            r.wf(),
            r@ == -self@,
    {
        proof {
            use_type_invariant(&self);
        }
        if self.limbs.len() == 0 {
            self
        } else {
            BigInt { neg: !self.neg, limbs: self.limbs }
        }
    }
}

impl View for BigInt {
    type V = int;

    open spec fn view(&self) -> int {
        self.val()
    }
}

/// A nonempty limb sequence without a trailing zero limb encodes a
/// strictly positive magnitude; every limb sequence encodes a
/// nonnegative one.
pub proof fn lemma_limbs_val_nonneg(s: Seq<u32>)
    ensures
        limbs_val(s) >= 0,
        s.len() > 0 && s.last() != 0 ==> limbs_val(s) > 0,
    decreases s.len(),
{
    if s.len() > 0 {
        lemma_limbs_val_nonneg(s.drop_last());
        lemma_pow2_pos((32 * (s.len() - 1)) as nat);
        assert(s.last() * pow2((32 * (s.len() - 1)) as nat) >= 0) by (nonlinear_arith)
            requires
                pow2((32 * (s.len() - 1)) as nat) > 0,
        ;
        if s.last() != 0 {
            assert(s.last() * pow2((32 * (s.len() - 1)) as nat) >= pow2(
                (32 * (s.len() - 1)) as nat,
            )) by (nonlinear_arith)
                requires
                    s.last() >= 1,
                    pow2((32 * (s.len() - 1)) as nat) > 0,
            ;
        }
    }
}

/// The magnitude is bounded by the limb count.
pub proof fn lemma_limbs_val_bound(s: Seq<u32>)
    ensures
        limbs_val(s) < pow2((32 * s.len()) as nat),
    decreases s.len(),
{
    lemma_pow2_pos((32 * s.len()) as nat);
    if s.len() == 0 {
    } else {
        let p = pow2((32 * (s.len() - 1)) as nat) as int;
        lemma_limbs_val_bound(s.drop_last());
        lemma_limbs_val_nonneg(s.drop_last());
        lemma_pow2_adds((32 * (s.len() - 1)) as nat, 32);
        lemma2_to64();
        assert(limbs_val(s.drop_last()) + s.last() * p < p * 0x1_0000_0000) by (nonlinear_arith)
            requires
                limbs_val(s.drop_last()) < p,
                0 <= limbs_val(s.drop_last()),
                s.last() <= 0xffff_ffffu32,
                p > 0,
        ;
    }
}

/// A nonempty canonical magnitude reaches at least the weight of its
/// top limb.
pub proof fn lemma_limbs_val_lower(s: Seq<u32>)
    requires
        s.len() > 0,
        s.last() != 0,
    ensures
        limbs_val(s) >= pow2((32 * (s.len() - 1)) as nat),
{
    let p = pow2((32 * (s.len() - 1)) as nat) as int;
    lemma_limbs_val_nonneg(s.drop_last());
    lemma_pow2_pos((32 * (s.len() - 1)) as nat);
    assert(s.last() * p >= p) by (nonlinear_arith)
        requires
            s.last() >= 1,
            p > 0,
    ;
}

/// Two limb sequences of equal length with equal magnitude are equal.
proof fn lemma_limbs_val_injective_len(s1: Seq<u32>, s2: Seq<u32>)
    requires
        s1.len() == s2.len(),
        limbs_val(s1) == limbs_val(s2),
    ensures
        s1 == s2,
    decreases s1.len(),
{
    if s1.len() > 0 {
        let p = pow2((32 * (s1.len() - 1)) as nat) as int;
        lemma_pow2_pos((32 * (s1.len() - 1)) as nat);
        lemma_limbs_val_bound(s1.drop_last());
        lemma_limbs_val_bound(s2.drop_last());
        lemma_limbs_val_nonneg(s1.drop_last());
        lemma_limbs_val_nonneg(s2.drop_last());
        assert(s1.last() == s2.last() && limbs_val(s1.drop_last()) == limbs_val(s2.drop_last()))
            by (nonlinear_arith)
            requires
                limbs_val(s1.drop_last()) + s1.last() * p == limbs_val(s2.drop_last())
                    + s2.last() * p,
                0 <= limbs_val(s1.drop_last()) < p,
                0 <= limbs_val(s2.drop_last()) < p,
                p > 0,
        ;
        lemma_limbs_val_injective_len(s1.drop_last(), s2.drop_last());
        assert forall|i: int| 0 <= i < s1.len() implies s1[i] == s2[i] by {
            if i < s1.len() - 1 {
                assert(s1.drop_last()[i] == s2.drop_last()[i]);
            }
        }
        assert(s1 =~= s2);
    } else {
        assert(s1 =~= s2);
    }
}

/// Canonical magnitudes are determined by their value.
pub proof fn lemma_limbs_val_injective(s1: Seq<u32>, s2: Seq<u32>)
    requires
        s1.len() > 0 ==> s1.last() != 0,
        s2.len() > 0 ==> s2.last() != 0,
        limbs_val(s1) == limbs_val(s2),
    ensures
        s1 == s2,
{
    if s1.len() < s2.len() {
        lemma_limbs_val_bound(s1);
        lemma_limbs_val_lower(s2);
        vstd::arithmetic::power2::lemma_pow2_strictly_increases(
            (32 * s1.len()) as nat,
            (32 * (s2.len() - 1)) as nat,
        );
        lemma_pow2_pos((32 * s1.len()) as nat);
        assert(s1.len() == s2.len() || 32 * s1.len() <= 32 * (s2.len() - 1));
        assert(false);
    } else if s2.len() < s1.len() {
        lemma_limbs_val_bound(s2);
        lemma_limbs_val_lower(s1);
        vstd::arithmetic::power2::lemma_pow2_strictly_increases(
            (32 * s2.len()) as nat,
            (32 * (s1.len() - 1)) as nat,
        );
        lemma_pow2_pos((32 * s2.len()) as nat);
        assert(false);
    } else {
        lemma_limbs_val_injective_len(s1, s2);
    }
}

/// The canonical representation is unique: two values (necessarily
/// well-formed, by the type invariant) with the same mathematical value
/// have the same sign and the same limbs.
pub proof fn lemma_wf_value_injective(a: BigInt, b: BigInt)
    requires
        a.wf(),
        b.wf(),
        a@ == b@,
    ensures
        a.magnitude() == b.magnitude(),
        a.sign() == b.sign(),
{
    lemma_limbs_val_nonneg(a.magnitude());
    lemma_limbs_val_nonneg(b.magnitude());
    if a.sign() == b.sign() {
        lemma_limbs_val_injective(a.magnitude(), b.magnitude());
    } else {
        assert(limbs_val(a.magnitude()) == 0 && limbs_val(b.magnitude()) == 0);
        assert(false);
    }
}

/// Dropping a trailing zero limb keeps the encoded magnitude.
proof fn lemma_drop_zero_last(s: Seq<u32>)
    requires
        s.len() > 0,
        s.last() == 0,
    ensures
        limbs_val(s.drop_last()) == limbs_val(s),
{
}

/// Remove trailing zero limbs, establishing canonical form.
pub fn normalize_limbs(limbs: &mut Vec<u32>)
    ensures
        limbs_val(final(limbs)@) == limbs_val(old(limbs)@),
        final(limbs)@.len() > 0 ==> final(limbs)@.last() != 0,
{
    while limbs.len() > 0 && limbs[limbs.len() - 1] == 0
        invariant
            limbs_val(limbs@) == limbs_val(old(limbs)@),
        decreases limbs@.len(),
    {
        proof {
            lemma_drop_zero_last(limbs@);
        }
        limbs.pop();
    }
}

/// Multiply a magnitude in place by a small factor and add a digit:
/// the step that folds one more digit of text into the value.
pub fn limbs_mul_add(limbs: &mut Vec<u32>, m: u32, d: u32)
    requires
        1 <= m <= 0xffff,
        d < m,
    ensures
        limbs_val(final(limbs)@) == limbs_val(old(limbs)@) * m + d,
        final(limbs)@.len() <= old(limbs)@.len() + 1,
{
    let ghost orig = limbs@;
    let n = limbs.len();
    let mut carry: u32 = d;
    let mut i: usize = 0;
    proof {
        lemma2_to64();
        assert(limbs@.subrange(0, 0) =~= Seq::<u32>::empty());
        assert(orig.subrange(0, 0) =~= Seq::<u32>::empty());
        assert(limbs_val(Seq::<u32>::empty()) == 0);
        assert(carry * pow2(0) == carry) by (nonlinear_arith)
            requires
                pow2(0) == 1,
        ;
        assert(limbs_val(Seq::<u32>::empty()) * m == 0) by (nonlinear_arith);
    }
    while i < n
        invariant
            1 <= m <= 0xffff,
            n == orig.len() == limbs@.len(),
            i <= n,
            carry < m,
            forall|j: int| i <= j < n ==> limbs@[j] == orig[j],
            limbs_val(limbs@.subrange(0, i as int)) + carry * pow2((32 * i) as nat) == limbs_val(
                orig.subrange(0, i as int),
            ) * m + d,
        decreases n - i,
    {
        let li = limbs[i];
        proof {
            assert((li as int) * (m as int) <= 0xffff_ffff * 0xffff) by (nonlinear_arith)
                requires
                    li <= 0xffff_ffffu32,
                    m <= 0xffffu32,
            ;
        }
        let t: u64 = (li as u64) * (m as u64) + (carry as u64);
        let low: u32 = (t % 0x1_0000_0000) as u32;
        let high: u32 = (t / 0x1_0000_0000) as u32;
        proof {
            assert(t < 0x1_0000_0000u64 * (m as u64)) by (nonlinear_arith)
                requires
                    t == (limbs@[i as int] as u64) * (m as u64) + (carry as u64),
                    limbs@[i as int] <= 0xffff_ffffu32,
                    carry < m,
                    1 <= m,
            ;
            assert(high < m) by (nonlinear_arith)
                requires
                    high == t / 0x1_0000_0000u64,
                    t < 0x1_0000_0000u64 * (m as u64),
            ;
            lemma_fundamental_div_mod(t as int, 0x1_0000_0000);
            assert(low + high * 0x1_0000_0000 == t);
        }
        let ghost pre = limbs@;
        let ghost old_carry = carry;
        limbs.set(i, low);
        carry = high;
        i = i + 1;
        proof {
            let im1 = i - 1;
            let p = pow2((32 * im1) as nat) as int;
            let p2 = pow2((32 * i) as nat) as int;
            lemma_pow2_adds((32 * im1) as nat, 32);
            lemma2_to64();
            assert(p2 == p * 0x1_0000_0000);
            assert(limbs@.subrange(0, im1) =~= pre.subrange(0, im1));
            assert(limbs@.subrange(0, i as int).drop_last() =~= limbs@.subrange(0, im1));
            assert(orig.subrange(0, i as int).drop_last() =~= orig.subrange(0, im1));
            assert(limbs@.subrange(0, i as int).last() == low);
            assert(orig.subrange(0, i as int).last() == orig[im1]);
            assert(limbs_val(limbs@.subrange(0, i as int)) == limbs_val(pre.subrange(0, im1))
                + low * p);
            assert(limbs_val(orig.subrange(0, i as int)) == limbs_val(orig.subrange(0, im1))
                + orig[im1] * p);
            assert(limbs_val(pre.subrange(0, im1)) + old_carry * p == limbs_val(
                orig.subrange(0, im1),
            ) * m + d);
            assert(low + high * 0x1_0000_0000 == orig[im1] * m + old_carry);
            assert(limbs_val(limbs@.subrange(0, i as int)) + carry * p2 == limbs_val(
                orig.subrange(0, i as int),
            ) * m + d) by (nonlinear_arith)
                requires
                    limbs_val(limbs@.subrange(0, i as int)) == limbs_val(pre.subrange(0, im1))
                        + low * p,
                    limbs_val(orig.subrange(0, i as int)) == limbs_val(orig.subrange(0, im1))
                        + orig[im1] * p,
                    limbs_val(pre.subrange(0, im1)) + old_carry * p == limbs_val(
                        orig.subrange(0, im1),
                    ) * m + d,
                    low + high * 0x1_0000_0000 == orig[im1] * m + old_carry,
                    carry == high,
                    p2 == p * 0x1_0000_0000,
            ;
        }
    }
    proof {
        assert(limbs@.subrange(0, n as int) =~= limbs@);
        assert(orig.subrange(0, n as int) =~= orig);
    }
    if carry != 0 {
        let ghost pre = limbs@;
        limbs.push(carry);
        proof {
            assert(limbs@.drop_last() =~= pre);
            assert(limbs@.last() == carry);
            assert(limbs_val(limbs@) == limbs_val(pre) + carry * pow2((32 * n) as nat));
        }
    }
}

} // verus!
