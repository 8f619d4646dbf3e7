//! The bit-pattern template matcher. A template is written most significant
//! bit first: `0` and `1` fix a bit, `?` leaves it free, and `_`, space and
//! tab only separate groups.
use vstd::arithmetic::power2::{lemma2_to64, lemma_pow2_strictly_increases, lemma_pow2_unfold, pow2};
use vstd::prelude::*;

verus! {

/// `_`
pub const UNDERSCORE: u8 = 95;

/// ` `
pub const SPACE: u8 = 32;

/// A tab.
pub const TAB: u8 = 9;

/// `0`: the bit must be clear.
pub const ZERO: u8 = 48;

/// `1`: the bit must be set.
pub const ONE: u8 = 49;

/// `?`: the bit may have either value.
pub const ANY: u8 = 63;

pub open spec fn is_separator(c: u8) -> bool {
    c == UNDERSCORE || c == SPACE || c == TAB
}

pub open spec fn is_template_char(c: u8) -> bool {
    c == ZERO || c == ONE || c == ANY
}

/// Every character is a bit constraint or a separator.
pub open spec fn is_template(p: Seq<u8>) -> bool {
    forall|i: int| 0 <= i < p.len() ==> is_separator(#[trigger] p[i]) || is_template_char(p[i])
}

/// The template without its separators.
pub open spec fn stripped(p: Seq<u8>) -> Seq<u8>
    decreases p.len(),
{
    if p.len() == 0 {
        Seq::empty()
    } else if is_separator(p.last()) {
        stripped(p.drop_last())
    } else {
        stripped(p.drop_last()).push(p.last())
    }
}

/// Bit `k` of the little-endian byte sequence `src`.
pub open spec fn input_bit(src: Seq<u8>, k: int) -> u8 {
    (src[k / 8] >> ((k % 8) as u8)) & 1u8
}

/// The constraint that template character `c` puts on a bit `b`.
pub open spec fn admits(c: u8, b: u8) -> bool {
    c == ANY || (c == ONE && b == 1) || (c == ZERO && b == 0)
}

/// Offset `k` (counted from the last character of the stripped template
/// `t`) has an input byte, and its bit meets the character's constraint.
pub open spec fn offset_ok(t: Seq<u8>, src: Seq<u8>, k: int) -> bool {
    k / 8 < src.len() && admits(t[t.len() - 1 - k], input_bit(src, k))
}

/// The stripped template `t` matches the input bytes `src`.
pub open spec fn template_matches(t: Seq<u8>, src: Seq<u8>) -> bool {
    forall|k: int| 0 <= k < t.len() ==> #[trigger] offset_ok(t, src, k)
}

/// Matches the template `pattern` against the bytes `src`: offset `k` of the
/// stripped template, counted from its last character, is compared with bit
/// `k % 8` of byte `k / 8`. Returns whether every fixed bit matched (an
/// input too short to cover the template never matches) and the template's
/// length in bits. A character other than `0`, `1`, `?` or a separator is a
/// defect of the caller's table, ruled out by the precondition.
pub fn bitpat(pattern: &[u8], src: &[u8]) -> (r: (bool, usize))
    requires
        is_template(pattern@),
    ensures
        r.1 == stripped(pattern@).len(),
        r.0 == template_matches(stripped(pattern@), src@),
{
    let mut t: Vec<u8> = Vec::new();
    let mut i: usize = 0;
    while i < pattern.len()
        invariant
            i <= pattern@.len(),
            is_template(pattern@),
            t@ == stripped(pattern@.subrange(0, i as int)),
            forall|j: int| 0 <= j < t@.len() ==> is_template_char(#[trigger] t@[j]),
        decreases pattern.len() - i,
    {
        let c = pattern[i];
        proof {
            assert(pattern@.subrange(0, i + 1).drop_last() =~= pattern@.subrange(0, i as int));
            assert(is_separator(pattern@[i as int]) || is_template_char(pattern@[i as int]));
        }
        if !(c == UNDERSCORE || c == SPACE || c == TAB) {
            t.push(c);
        }
        i += 1;
    }
    proof {
        assert(pattern@.subrange(0, pattern@.len() as int) =~= pattern@);
    }
    let n = t.len();
    let mut k: usize = 0;
    while k < n
        invariant
            t@ == stripped(pattern@),
            n == t@.len(),
            k <= n,
            forall|j: int| 0 <= j < t@.len() ==> is_template_char(#[trigger] t@[j]),
            forall|j: int| 0 <= j < k ==> #[trigger] offset_ok(t@, src@, j),
        decreases n - k,
    {
        if k / 8 >= src.len() {
            assert(!offset_ok(t@, src@, k as int));
            return (false, n);
        }
        let c = t[n - 1 - k];
        let byte = src[k / 8];
        let b = (byte >> ((k % 8) as u32)) & 1;
        assert(b == input_bit(src@, k as int));
        if (c == ONE && b != 1) || (c == ZERO && b != 0) {
            assert(!offset_ok(t@, src@, k as int));
            return (false, n);
        }
        proof {
            assert(is_template_char(t@[n - 1 - k]));
            assert((b & 1u8) == b) by (bit_vector)
                requires
                    b == (byte >> ((k % 8) as u32)) & 1,
            ;
            assert(b == 0 || b == 1) by (bit_vector)
                requires
                    b & 1u8 == b,
            ;
        }
        k += 1;
    }
    (true, n)
}


/// The word held little-endian in the first four bytes of `src`.
pub open spec fn le_word(src: Seq<u8>) -> u32 {
    (src[0] as u32) | ((src[1] as u32) << 8u32) | ((src[2] as u32) << 16u32) | ((src[3] as u32)
        << 24u32)
}

/// The fixed bits of the template `p`, its last character standing for bit 0.
pub open spec fn template_mask(p: Seq<u8>) -> nat
    decreases p.len(),
{
    if p.len() == 0 {
        0
    } else if is_separator(p.last()) {
        template_mask(p.drop_last())
    } else {
        2 * template_mask(p.drop_last()) + if p.last() == ANY {
            0nat
        } else {
            1nat
        }
    }
}

/// The values that the template `p` requires of its fixed bits.
pub open spec fn template_value(p: Seq<u8>) -> nat
    decreases p.len(),
{
    if p.len() == 0 {
        0
    } else if is_separator(p.last()) {
        template_value(p.drop_last())
    } else {
        2 * template_value(p.drop_last()) + if p.last() == ONE {
            1nat
        } else {
            0nat
        }
    }
}

/// Bit `k` of `x`, as a byte.
pub open spec fn word_bit(x: u32, k: int) -> u8 {
    ((x >> (k as u32)) & 1u32) as u8
}

/// The bits of `x` from bit 0 upward meet the characters of the stripped
/// template `t` from its last one backward.
pub open spec fn admits_word(t: Seq<u8>, x: u32) -> bool
    decreases t.len(),
{
    if t.len() == 0 {
        true
    } else {
        admits(t.last(), word_bit(x, 0)) && admits_word(t.drop_last(), x >> 1u32)
    }
}

proof fn lemma_mask_step(x: u32, m1: u32, v1: u32, m: u32, v: u32)
    by (bit_vector)
    requires
        m1 < 0x8000_0000u32,
        v1 < 0x8000_0000u32,
        m <= 1,
        v <= m,
    ensures
        ((x & ((2 * m1 + m) as u32)) == ((2 * v1 + v) as u32)) == (((x >> 1u32) & m1) == v1 && (x
            & m) == v),
        (x & 0u32) == 0u32,
        ((x & 1u32) as u8 == 1u8) == ((x & 1u32) == 1u32),
        ((x & 1u32) as u8 == 0u8) == ((x & 1u32) == 0u32),
        ((x >> 0u32) & 1u32) == (x & 1u32),
{
}

/// The mask and value of a template of at most 32 bits fit its width, and
/// a word meets the template exactly when its masked bits equal the value.
proof fn lemma_template_mask(p: Seq<u8>, x: u32)
    requires
        is_template(p),
        stripped(p).len() <= 32,
    ensures
        template_mask(p) < pow2(stripped(p).len()),
        template_value(p) < pow2(stripped(p).len()),
        admits_word(stripped(p), x) == ((x & (template_mask(p) as u32)) == (template_value(
            p,
        ) as u32)),
    decreases p.len(),
{
    lemma_mask_step(x, 0, 0, 0, 0);
    if p.len() == 0 {
        lemma2_to64();
    } else {
        let q = p.drop_last();
        assert(is_template(q)) by {
            assert forall|i: int| 0 <= i < q.len() implies is_separator(#[trigger] q[i])
                || is_template_char(q[i]) by {
                assert(q[i] == p[i]);
            }
        }
        let c = p.last();
        assert(is_separator(p[p.len() - 1]) || is_template_char(p[p.len() - 1]));
        if is_separator(c) {
            lemma_template_mask(q, x);
        } else {
            let tq = stripped(q);
            let n = tq.len();
            assert(stripped(p) == tq.push(c));
            assert(tq.push(c).drop_last() =~= tq);
            lemma_template_mask(q, x >> 1u32);
            lemma_pow2_unfold(n + 1);
            if n < 31 {
                lemma_pow2_strictly_increases(n, 31);
            }
            lemma2_to64();
            let m1 = template_mask(q) as u32;
            let v1 = template_value(q) as u32;
            let m: u32 = if c == ANY { 0 } else { 1 };
            let v: u32 = if c == ONE { 1 } else { 0 };
            lemma_mask_step(x, m1, v1, m, v);
            assert(admits(c, word_bit(x, 0)) == ((x & m) == v));
        }
    }
}

proof fn lemma_shift_bit(x: u32, k: u32)
    by (bit_vector)
    requires
        k < 31,
    ensures
        ((x >> (k + 1) as u32) & 1u32) == (((x >> 1u32) >> k) & 1u32),
{
}

/// `admits_word` checks each offset of the template against the same bit of the word.
proof fn lemma_admits_word_bits(t: Seq<u8>, x: u32)
    requires
        t.len() <= 32,
    ensures
        admits_word(t, x) == forall|k: int|
            0 <= k < t.len() ==> admits(#[trigger] t[t.len() - 1 - k], word_bit(x, k)),
    decreases t.len(),
{
    if t.len() > 0 {
        let u = t.drop_last();
        lemma_admits_word_bits(u, x >> 1u32);
        assert forall|k: int| 1 <= k < t.len() implies word_bit(x, k) == word_bit(x >> 1u32, k - 1)
            by {
            lemma_shift_bit(x, (k - 1) as u32);
        }
        if admits_word(t, x) {
            assert forall|k: int| 0 <= k < t.len() implies admits(
                #[trigger] t[t.len() - 1 - k],
                word_bit(x, k),
            ) by {
                if k > 0 {
                    assert(t[t.len() - 1 - k] == u[u.len() - 1 - (k - 1)]);
                }
            }
        }
        if forall|k: int| 0 <= k < t.len() ==> admits(#[trigger] t[t.len() - 1 - k], word_bit(x, k)) {
            assert(admits(t[t.len() - 1 - 0], word_bit(x, 0)));
            assert forall|k: int| 0 <= k < u.len() implies admits(
                #[trigger] u[u.len() - 1 - k],
                word_bit(x >> 1u32, k),
            ) by {
                assert(u[u.len() - 1 - k] == t[t.len() - 1 - (k + 1)]);
            }
        }
    }
}

proof fn lemma_le_word_bit(b0: u8, b1: u8, b2: u8, b3: u8, k: u32)
    by (bit_vector)
    requires
        k < 32,
    ensures
        k < 8 ==> (((((b0 as u32) | ((b1 as u32) << 8u32) | ((b2 as u32) << 16u32) | ((b3 as u32)
            << 24u32)) >> k) & 1u32) as u8) == ((b0 >> (k as u8)) & 1u8),
        8 <= k < 16 ==> (((((b0 as u32) | ((b1 as u32) << 8u32) | ((b2 as u32) << 16u32) | ((
        b3 as u32) << 24u32)) >> k) & 1u32) as u8) == ((b1 >> ((k - 8) as u8)) & 1u8),
        16 <= k < 24 ==> (((((b0 as u32) | ((b1 as u32) << 8u32) | ((b2 as u32) << 16u32) | ((
        b3 as u32) << 24u32)) >> k) & 1u32) as u8) == ((b2 >> ((k - 16) as u8)) & 1u8),
        24 <= k < 32 ==> (((((b0 as u32) | ((b1 as u32) << 8u32) | ((b2 as u32) << 16u32) | ((
        b3 as u32) << 24u32)) >> k) & 1u32) as u8) == ((b3 >> ((k - 24) as u8)) & 1u8),
{
}

/// `template_mask` of the first `n` characters of `p`.
pub open spec fn mask_upto(p: Seq<u8>, n: int) -> nat
    decreases n,
{
    if n <= 0 {
        0
    } else if is_separator(p[n - 1]) {
        mask_upto(p, n - 1)
    } else {
        2 * mask_upto(p, n - 1) + if p[n - 1] == ANY {
            0nat
        } else {
            1nat
        }
    }
}

/// `template_value` of the first `n` characters of `p`.
pub open spec fn value_upto(p: Seq<u8>, n: int) -> nat
    decreases n,
{
    if n <= 0 {
        0
    } else if is_separator(p[n - 1]) {
        value_upto(p, n - 1)
    } else {
        2 * value_upto(p, n - 1) + if p[n - 1] == ONE {
            1nat
        } else {
            0nat
        }
    }
}

/// The number of bit characters among the first `n` characters of `p`.
pub open spec fn width_upto(p: Seq<u8>, n: int) -> nat
    decreases n,
{
    if n <= 0 {
        0
    } else if is_separator(p[n - 1]) {
        width_upto(p, n - 1)
    } else {
        width_upto(p, n - 1) + 1
    }
}

/// The first `n` characters of `p` are bit characters or separators.
pub open spec fn template_upto(p: Seq<u8>, n: int) -> bool
    decreases n,
{
    if n <= 0 {
        true
    } else {
        (is_separator(p[n - 1]) || is_template_char(p[n - 1])) && template_upto(p, n - 1)
    }
}

proof fn lemma_upto_prefix(p: Seq<u8>, n: int)
    requires
        0 <= n < p.len(),
    ensures
        mask_upto(p.drop_last(), n) == mask_upto(p, n),
        value_upto(p.drop_last(), n) == value_upto(p, n),
        width_upto(p.drop_last(), n) == width_upto(p, n),
        template_upto(p.drop_last(), n) == template_upto(p, n),
    decreases n,
{
    if n > 0 {
        lemma_upto_prefix(p, n - 1);
        assert(p.drop_last()[n - 1] == p[n - 1]);
    }
}

/// The prefix-indexed forms agree with the template's own measures.
pub proof fn lemma_upto(p: Seq<u8>)
    ensures
        mask_upto(p, p.len() as int) == template_mask(p),
        value_upto(p, p.len() as int) == template_value(p),
        width_upto(p, p.len() as int) == stripped(p).len(),
        template_upto(p, p.len() as int) == is_template(p),
    decreases p.len(),
{
    if p.len() > 0 {
        let q = p.drop_last();
        lemma_upto(q);
        lemma_upto_prefix(p, q.len() as int);
        if is_template(p) {
            assert(is_template(q)) by {
                assert forall|i: int| 0 <= i < q.len() implies is_separator(#[trigger] q[i])
                    || is_template_char(q[i]) by {
                    assert(q[i] == p[i]);
                }
            }
            assert(is_separator(p[q.len() as int]) || is_template_char(p[q.len() as int]));
        }
        if template_upto(p, p.len() as int) {
            assert forall|i: int| 0 <= i < p.len() implies is_separator(#[trigger] p[i])
                || is_template_char(p[i]) by {
                if i < q.len() {
                    assert(q[i] == p[i]);
                }
            }
        }
    }
}

/// A template of 32 bits matches exactly the inputs of at least four bytes
/// whose little-endian word has the template's value under its mask.
pub proof fn lemma_template_word(p: Seq<u8>, src: Seq<u8>)
    requires
        is_template(p),
        stripped(p).len() == 32,
    ensures
        template_mask(p) < 0x1_0000_0000,
        template_value(p) < 0x1_0000_0000,
        template_matches(stripped(p), src) == (src.len() >= 4 && (le_word(src) & (template_mask(
            p,
        ) as u32)) == (template_value(p) as u32)),
{
    let t = stripped(p);
    lemma2_to64();
    if src.len() < 4 {
        lemma_template_mask(p, 0);
        assert(!offset_ok(t, src, 31));
    } else {
        let w = le_word(src);
        lemma_template_mask(p, w);
        lemma_admits_word_bits(t, w);
        assert forall|k: int| 0 <= k < 32 implies word_bit(w, k) == #[trigger] input_bit(src, k) by {
            lemma_le_word_bit(src[0], src[1], src[2], src[3], k as u32);
        }
        if template_matches(t, src) {
            assert forall|k: int| 0 <= k < t.len() implies admits(
                #[trigger] t[t.len() - 1 - k],
                word_bit(w, k),
            ) by {
                assert(offset_ok(t, src, k));
            }
        }
        if admits_word(t, w) {
            assert forall|k: int| 0 <= k < t.len() implies #[trigger] offset_ok(t, src, k) by {
                assert(admits(t[t.len() - 1 - k], word_bit(w, k)));
            }
        }
    }
}

} // verus!
