//! Bitfield primitives: single bits, inclusive ranges and sign extension.
use vstd::prelude::*;

verus! {

/// The `n` lowest bits set (all 32 when `n >= 32`).
pub open spec fn ones(n: u32) -> u32 {
    if n >= 32 {
        0xffff_ffffu32
    } else {
        ((1u32 << n) - 1) as u32
    }
}

/// Bit `i` of `x`, counted from the least significant bit.
pub open spec fn bit_of(x: u32, i: u32) -> u32 {
    (x >> i) & 1
}

/// The inclusive field `x[hi:lo]`, moved down to bit 0.
pub open spec fn field(x: u32, hi: u32, lo: u32) -> u32 {
    (x >> lo) & ones((hi - lo + 1) as u32)
}

/// Sign extension of a `raw`-bit value to `target` bits: when bit `raw - 1`
/// is set, bits `raw .. target` are set too.
pub open spec fn sext(v: u32, raw: u32, target: u32) -> u32 {
    if bit_of(v, (raw - 1) as u32) == 1 {
        v | (ones((target - raw) as u32) << raw)
    } else {
        v
    }
}

/// Bit `i` of `x`.
pub fn bit(x: u32, i: u32) -> (r: u32)
    requires
        i < 32,
    ensures
        r == bit_of(x, i),
        r <= 1,
{
    assert((x >> i) & 1 <= 1) by (bit_vector);
    (x >> i) & 1
}

/// The inclusive field `x[hi:lo]`; `hi` must be above `lo`.
pub fn bits(x: u32, hi: u32, lo: u32) -> (r: u32)
    requires
        lo < hi,
        hi < 32,
    ensures
        r == field(x, hi, lo),
        (r as u64) < (1u64 << (hi - lo + 1) as u64),
{
    let n: u32 = hi - lo + 1;
    assert(n < 32 ==> (1u32 << n) >= 1) by (bit_vector);
    let m: u32 = if n >= 32 { 0xffff_ffff } else { (1u32 << n) - 1 };
    let r = (x >> lo) & m;
    assert(r == field(x, hi, lo));
    assert((r as u64) < (1u64 << n as u64)) by (bit_vector)
        requires
            r == (x >> lo) & m,
            m == if n >= 32 { 0xffff_ffffu32 } else { ((1u32 << n) - 1) as u32 },
            1 < n <= 32,
    ;
    r
}

/// Sign extension from `raw` to `target` bits. For a value that fits in
/// `raw` bits this is two's-complement sign extension: a negative value
/// gains `2^target - 2^raw`.
pub fn sign_extend(v: u32, raw: u32, target: u32) -> (r: u32)
    requires
        1 <= raw < target <= 32,
    ensures
        r == sext(v, raw, target),
        (v as u64) < (1u64 << raw as u64) ==> r as int == if (v as u64) >= (1u64 << (raw - 1) as u64) {
            v + (1u64 << target as u64) - (1u64 << raw as u64)
        } else {
            v as int
        },
{
    let n: u32 = target - raw;
    assert(n < 32 ==> (1u32 << n) >= 1) by (bit_vector);
    let m: u32 = if n >= 32 { 0xffff_ffff } else { (1u32 << n) - 1 };
    let top = (v >> (raw - 1)) & 1;
    let r = if top == 1 { v | (m << raw) } else { v };
    assert(r == sext(v, raw, target));
    assert((v as u64) < (1u64 << raw as u64) ==> r as int == if (v as u64) >= (1u64 << (raw - 1) as u64) {
        v + (1u64 << target as u64) - (1u64 << raw as u64)
    } else {
        v as int
    }) by (bit_vector)
        requires
            1 <= raw < target <= 32,
            n == target - raw,
            m == if n >= 32 { 0xffff_ffffu32 } else { ((1u32 << n) - 1) as u32 },
            top == (v >> (raw - 1) as u32) & 1,
            r == if top == 1 { v | (m << raw) } else { v },
    ;
    r
}

/// Sign extension to 32 bits at the widths the formats use: a 12-bit
/// (I, S), 13-bit (B) or 21-bit (J) value is kept when its top bit is clear
/// and gets all higher bits set otherwise; the U-type immediate is the
/// upper field shifted into place, with nothing to extend.
pub proof fn lemma_sign_extend_widths(v: u32)
    by (bit_vector)
    ensures
        v < 0x1000 ==> sext(v, 12, 32) == if v & 0x800 == 0 {
            v
        } else {
            v | 0xffff_f000
        },
        v < 0x2000 ==> sext(v, 13, 32) == if v & 0x1000 == 0 {
            v
        } else {
            v | 0xffff_e000
        },
        v < 0x20_0000 ==> sext(v, 21, 32) == if v & 0x10_0000 == 0 {
            v
        } else {
            v | 0xffe0_0000
        },
        field(v, 31, 12) << 12u32 == v & 0xffff_f000,
{
}

} // verus!
