//! Primitive codec: attribute text to typed values.
//!
//! Two integer forms coexist in the format and which one a field uses is
//! fixed per field by convention: decimal `-?[0-9]+` and hexadecimal
//! `0x[0-9a-fA-F]+`.  Booleans are the two single-letter tokens `y` and
//! `n`; anything else is a decode failure, never a default.  Strings are
//! entity-unescaped for exactly five XML entities, scanned left to right
//! with `&amp;` taking priority, so `&amp;lt;` yields the four bytes
//! `&lt;` and not `<`.

use vstd::prelude::*;
use crate::big_int::{BigInt, limbs_val, limbs_mul_add, normalize_limbs};
use crate::scan::lit_bytes;

verus! {

broadcast use vstd::seq::group_seq_axioms, vstd::std_specs::vec::group_vec_axioms;

pub open spec fn is_dec_digit(b: u8) -> bool {
    48 <= b <= 57
}

pub open spec fn is_hex_digit(b: u8) -> bool {
    (48 <= b <= 57) || (97 <= b <= 102) || (65 <= b <= 70)
}

pub open spec fn hex_digit_val(b: u8) -> int {
    if 48 <= b <= 57 {
        b - 48
    } else if 97 <= b <= 102 {
        b - 87
    } else {
        b - 55
    }
}

pub open spec fn all_dec_digits(s: Seq<u8>) -> bool {
    forall|i: int| 0 <= i < s.len() ==> is_dec_digit(#[trigger] s[i])
}

pub open spec fn all_hex_digits(s: Seq<u8>) -> bool {
    forall|i: int| 0 <= i < s.len() ==> is_hex_digit(#[trigger] s[i])
}

/// The value of a run of decimal digits.
pub open spec fn dec_digits_val(s: Seq<u8>) -> int
    decreases s.len(),
{
    if s.len() == 0 {
        0
    } else {
        dec_digits_val(s.drop_last()) * 10 + (s.last() - 48)
    }
}

/// The value of a run of hexadecimal digits.
pub open spec fn hex_digits_val(s: Seq<u8>) -> int
    decreases s.len(),
{
    if s.len() == 0 {
        0
    } else {
        hex_digits_val(s.drop_last()) * 16 + hex_digit_val(s.last())
    }
}

/// The lexical form of a decimal field value: `-?[0-9]+`.
pub open spec fn is_dec_text(s: Seq<u8>) -> bool {
    if s.len() > 0 && s[0] == 45 {
        s.len() >= 2 && all_dec_digits(s.subrange(1, s.len() as int))
    } else {
        s.len() >= 1 && all_dec_digits(s)
    }
}

/// The value of a decimal field value.
pub open spec fn dec_text_val(s: Seq<u8>) -> int {
    if s.len() > 0 && s[0] == 45 {
        -dec_digits_val(s.subrange(1, s.len() as int))
    } else {
        dec_digits_val(s)
    }
}

/// The lexical form of a hexadecimal field value: `0x[0-9a-fA-F]+`.
pub open spec fn is_hex_text(s: Seq<u8>) -> bool {
    s.len() >= 3 && s[0] == 48 && s[1] == 120 && all_hex_digits(s.subrange(2, s.len() as int))
}

/// The value of a hexadecimal field value.
pub open spec fn hex_text_val(s: Seq<u8>) -> int {
    hex_digits_val(s.subrange(2, s.len() as int))
}

/// The boolean tokens: exactly `y` (true) and `n` (false).
pub open spec fn bool_token_val(s: Seq<u8>) -> Option<bool> {
    if s == lit_bytes("y") {
        Some(true)
    } else if s == lit_bytes("n") {
        Some(false)
    } else {
        None
    }
}

/// Fold decimal digits into a magnitude, reporting the first non-digit.
fn decode_dec_digits(text: &[u8], start: usize) -> (r: Option<Vec<u32>>)
    requires
        start <= text@.len(),
    ensures
        match r {
            Some(limbs) => all_dec_digits(text@.subrange(start as int, text@.len() as int))
                && limbs_val(limbs@) == dec_digits_val(
                text@.subrange(start as int, text@.len() as int),
            ) && (limbs@.len() > 0 ==> limbs@.last() != 0),
            None => !all_dec_digits(text@.subrange(start as int, text@.len() as int)),
        },
{
    let mut limbs: Vec<u32> = Vec::new();
    let mut i: usize = start;
    proof {
        assert(text@.subrange(start as int, start as int) =~= Seq::<u8>::empty());
    }
    while i < text.len()
        invariant
            start <= i <= text@.len(),
            all_dec_digits(text@.subrange(start as int, i as int)),
            limbs_val(limbs@) == dec_digits_val(text@.subrange(start as int, i as int)),
        decreases text@.len() - i,
    {
        let b = text[i];
        if !(48 <= b && b <= 57) {
            proof {
                let full = text@.subrange(start as int, text@.len() as int);
                assert(full[i - start] == text@[i as int]);
            }
            return None;
        }
        limbs_mul_add(&mut limbs, 10, (b - 48) as u32);
        i = i + 1;
        proof {
            let cur = text@.subrange(start as int, i as int);
            assert(cur.drop_last() =~= text@.subrange(start as int, i - 1));
            assert(cur.last() == text@[i - 1]);
            assert(forall|j: int| 0 <= j < cur.len() ==> is_dec_digit(#[trigger] cur[j]));
        }
    }
    proof {
        assert(text@.subrange(start as int, i as int) =~= text@.subrange(
            start as int,
            text@.len() as int,
        ));
    }
    normalize_limbs(&mut limbs);
    Some(limbs)
}

/// Fold hexadecimal digits into a magnitude, reporting the first
/// non-digit.
fn decode_hex_digits(text: &[u8], start: usize) -> (r: Option<Vec<u32>>)
    requires
        start <= text@.len(),
    ensures
        match r {
            Some(limbs) => all_hex_digits(text@.subrange(start as int, text@.len() as int))
                && limbs_val(limbs@) == hex_digits_val(
                text@.subrange(start as int, text@.len() as int),
            ) && (limbs@.len() > 0 ==> limbs@.last() != 0),
            None => !all_hex_digits(text@.subrange(start as int, text@.len() as int)),
        },
{
    let mut limbs: Vec<u32> = Vec::new();
    let mut i: usize = start;
    proof {
        assert(text@.subrange(start as int, start as int) =~= Seq::<u8>::empty());
    }
    while i < text.len()
        invariant
            start <= i <= text@.len(),
            all_hex_digits(text@.subrange(start as int, i as int)),
            limbs_val(limbs@) == hex_digits_val(text@.subrange(start as int, i as int)),
        decreases text@.len() - i,
    {
        let b = text[i];
        let d: u32 = if 48 <= b && b <= 57 {
            (b - 48) as u32
        } else if 97 <= b && b <= 102 {
            (b - 87) as u32
        } else if 65 <= b && b <= 70 {
            (b - 55) as u32
        } else {
            proof {
                let full = text@.subrange(start as int, text@.len() as int);
                assert(full[i - start] == text@[i as int]);
            }
            return None;
        };
        limbs_mul_add(&mut limbs, 16, d);
        i = i + 1;
        proof {
            let cur = text@.subrange(start as int, i as int);
            assert(cur.drop_last() =~= text@.subrange(start as int, i - 1));
            assert(cur.last() == text@[i - 1]);
            assert(forall|j: int| 0 <= j < cur.len() ==> is_hex_digit(#[trigger] cur[j]));
        }
    }
    proof {
        assert(text@.subrange(start as int, i as int) =~= text@.subrange(
            start as int,
            text@.len() as int,
        ));
    }
    normalize_limbs(&mut limbs);
    Some(limbs)
}

/// Decode a decimal field value `-?[0-9]+` to its exact value.
pub fn decode_decimal(text: &[u8]) -> (r: Option<BigInt>)
    ensures
        match r {
            Some(b) => is_dec_text(text@) && b.wf() && b@ == dec_text_val(text@),
            None => !is_dec_text(text@),
        },
{
    if text.len() == 0 {
        return None;
    }
    let neg_sign = text[0] == 45;
    let start: usize = if neg_sign {
        1
    } else {
        0
    };
    if text.len() == start {
        return None;
    }
    let limbs = match decode_dec_digits(text, start) {
        Some(l) => l,
        None => {
            return None;
        },
    };
    proof {
        if !neg_sign {
            assert(text@.subrange(0, text@.len() as int) =~= text@);
        }
    }
    Some(BigInt::from_sign_magnitude(neg_sign, limbs))
}

/// Decode a hexadecimal field value `0x[0-9a-fA-F]+` to its exact value.
pub fn decode_hex(text: &[u8]) -> (r: Option<BigInt>)
    ensures
        match r {
            Some(b) => is_hex_text(text@) && b.wf() && b@ == hex_text_val(text@) && b@ >= 0,
            None => !is_hex_text(text@),
        },
{
    if !(text.len() >= 3 && text[0] == 48 && text[1] == 120) {
        return None;
    }
    let limbs = match decode_hex_digits(text, 2) {
        Some(l) => l,
        None => {
            return None;
        },
    };
    proof {
        crate::big_int::lemma_limbs_val_nonneg(limbs@);
    }
    Some(BigInt::from_sign_magnitude(false, limbs))
}

/// Decode a boolean token: exactly `y` or `n`, nothing else.
pub fn decode_boolean(text: &[u8]) -> (r: Option<bool>)
    ensures
        r == bool_token_val(text@),
{
    proof {
        assert(text@.subrange(0, text@.len() as int) =~= text@);
    }
    if crate::scan::kw_at(text, 0, text.len(), "y".as_bytes()) {
        Some(true)
    } else if crate::scan::kw_at(text, 0, text.len(), "n".as_bytes()) {
        Some(false)
    } else {
        None
    }
}

/// The five recognized entities.
pub open spec fn ent_amp() -> Seq<u8> {
    lit_bytes("&amp;")
}

pub open spec fn ent_lt() -> Seq<u8> {
    lit_bytes("&lt;")
}

pub open spec fn ent_gt() -> Seq<u8> {
    lit_bytes("&gt;")
}

pub open spec fn ent_quot() -> Seq<u8> {
    lit_bytes("&quot;")
}

pub open spec fn ent_apos() -> Seq<u8> {
    lit_bytes("&apos;")
}

/// Entity unescaping by literal substitution, scanning left to right;
/// at each position `&amp;` is tried first, then `&lt;`, `&gt;`,
/// `&quot;`, `&apos;`.  An unrecognized `&`-sequence is passed through
/// unchanged.
pub open spec fn unescaped(s: Seq<u8>) -> Seq<u8>
    decreases s.len(),
{
    if s.len() == 0 {
        Seq::empty()
    } else if s.len() >= 5 && s.subrange(0, 5) == ent_amp() {
        seq![38u8] + unescaped(s.skip(5))
    } else if s.len() >= 4 && s.subrange(0, 4) == ent_lt() {
        seq![60u8] + unescaped(s.skip(4))
    } else if s.len() >= 4 && s.subrange(0, 4) == ent_gt() {
        seq![62u8] + unescaped(s.skip(4))
    } else if s.len() >= 6 && s.subrange(0, 6) == ent_quot() {
        seq![34u8] + unescaped(s.skip(6))
    } else if s.len() >= 6 && s.subrange(0, 6) == ent_apos() {
        seq![39u8] + unescaped(s.skip(6))
    } else {
        seq![s[0]] + unescaped(s.skip(1))
    }
}

/// Unescape the five recognized XML entities.
pub fn xml_unescape(text: &[u8]) -> (r: Vec<u8>)
    ensures
        r@ == unescaped(text@),
{
    let mut out: Vec<u8> = Vec::new();
    let mut i: usize = 0;
    proof {
        assert(text@.skip(0) =~= text@);
        assert(Seq::<u8>::empty() + unescaped(text@) =~= unescaped(text@));
    }
    while i < text.len()
        invariant
            i <= text@.len(),
            unescaped(text@) == out@ + unescaped(text@.skip(i as int)),
        decreases text@.len() - i,
    {
        let ghost rest = text@.skip(i as int);
        proof {
            assert(rest.len() == text@.len() - i);
            if i + 5 <= text@.len() {
                assert(rest.subrange(0, 5) =~= text@.subrange(i as int, i + 5));
            }
            if i + 4 <= text@.len() {
                assert(rest.subrange(0, 4) =~= text@.subrange(i as int, i + 4));
            }
            if i + 6 <= text@.len() {
                assert(rest.subrange(0, 6) =~= text@.subrange(i as int, i + 6));
            }
        }
        let step: usize;
        if text.len() - i >= 5 && crate::scan::kw_at(text, i, i + 5, "&amp;".as_bytes()) {
            out.push(38);
            step = 5;
        } else if text.len() - i >= 4 && crate::scan::kw_at(text, i, i + 4, "&lt;".as_bytes()) {
            out.push(60);
            step = 4;
        } else if text.len() - i >= 4 && crate::scan::kw_at(text, i, i + 4, "&gt;".as_bytes()) {
            out.push(62);
            step = 4;
        } else if text.len() - i >= 6 && crate::scan::kw_at(text, i, i + 6, "&quot;".as_bytes()) {
            out.push(34);
            step = 6;
        } else if text.len() - i >= 6 && crate::scan::kw_at(text, i, i + 6, "&apos;".as_bytes()) {
            out.push(39);
            step = 6;
        } else {
            proof {
                assert(rest[0] == text@[i as int]);
            }
            out.push(text[i]);
            step = 1;
        }
        proof {
            assert(rest.skip(step as int) =~= text@.skip(i + step));
            assert(out@.drop_last() + (seq![out@.last()] + unescaped(text@.skip(i + step)))
                =~= out@ + unescaped(text@.skip(i + step)));
        }
        i = i + step;
    }
    proof {
        assert(text@.skip(i as int) =~= Seq::<u8>::empty());
        assert(out@ + Seq::<u8>::empty() =~= out@);
    }
    out
}

/// The priority of `&amp;`: wherever the input continues with the five
/// bytes `&amp;`, unescaping substitutes a single `&` and continues
/// after them, before any other entity is considered -- so `&amp;lt;`
/// yields `&lt;`, not `<`.
pub proof fn lemma_unescape_amp_priority(s: Seq<u8>)
    requires
        s.len() >= 5,
        s.subrange(0, 5) == ent_amp(),
    ensures
        unescaped(s) == seq![38u8] + unescaped(s.skip(5)),
{
}

} // verus!
