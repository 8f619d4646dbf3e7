//! The operand fields of the six RISC-V instruction formats (R, I, S, B, U, J).
use vstd::prelude::*;

use crate::bits::{bit, bit_of, bits, field, sext, sign_extend};

verus! {

/// The major opcode, `w[6:0]`.
pub open spec fn opcode_of(w: u32) -> u32 {
    field(w, 6, 0)
}

/// The destination register field, `w[11:7]`.
pub open spec fn rd_of(w: u32) -> u8 {
    field(w, 11, 7) as u8
}

/// The first source register field, `w[19:15]`.
pub open spec fn rs1_of(w: u32) -> u8 {
    field(w, 19, 15) as u8
}

/// The second source register field, `w[24:20]`.
pub open spec fn rs2_of(w: u32) -> u8 {
    field(w, 24, 20) as u8
}

/// The `funct3` field, `w[14:12]`.
pub open spec fn funct3_of(w: u32) -> u32 {
    field(w, 14, 12)
}

/// The `funct7` field, `w[31:25]`.
pub open spec fn funct7_of(w: u32) -> u32 {
    field(w, 31, 25)
}

/// I-type immediate: `w[31:20]`, sign-extended from 12 bits.
pub open spec fn i_imm_of(w: u32) -> u32 {
    sext(field(w, 31, 20), 12, 32)
}

/// S-type immediate: `{w[31:25], w[11:7]}`, sign-extended from 12 bits.
pub open spec fn s_imm_of(w: u32) -> u32 {
    sext((field(w, 31, 25) << 5u32) | field(w, 11, 7), 12, 32)
}

/// B-type immediate: `{w[31], w[7], w[30:25], w[11:8], 0}`, sign-extended from 13 bits.
pub open spec fn b_imm_of(w: u32) -> u32 {
    sext(
        (bit_of(w, 31) << 12u32) | (bit_of(w, 7) << 11u32) | (field(w, 30, 25) << 5u32) | (field(
            w,
            11,
            8,
        ) << 1u32),
        13,
        32,
    )
}

/// U-type immediate: `w[31:12]` shifted into the upper 20 bits.
pub open spec fn u_imm_of(w: u32) -> u32 {
    field(w, 31, 12) << 12u32
}

/// J-type immediate: `{w[31], w[19:12], w[20], w[30:21], 0}`, sign-extended from 21 bits.
pub open spec fn j_imm_of(w: u32) -> u32 {
    sext(
        (bit_of(w, 31) << 20u32) | (field(w, 19, 12) << 12u32) | (bit_of(w, 20) << 11u32) | (field(
            w,
            30,
            21,
        ) << 1u32),
        21,
        32,
    )
}

/// The register and selector fields fit their widths.
pub proof fn lemma_field_bounds(w: u32)
    by (bit_vector)
    ensures
        field(w, 6, 0) < 128,
        field(w, 11, 7) <= 31,
        field(w, 19, 15) <= 31,
        field(w, 24, 20) <= 31,
        field(w, 14, 12) < 8,
        field(w, 31, 25) < 128,
        field(w, 31, 26) < 64,
        field(w, 31, 20) < 4096,
        field(w, 27, 24) < 16,
        field(w, 23, 20) < 16,
{
}

pub fn opcode(w: u32) -> (r: u32)
    ensures
        r == opcode_of(w),
        r < 128,
{
    proof {
        lemma_field_bounds(w);
    }
    bits(w, 6, 0)
}

pub fn rd(w: u32) -> (r: u8)
    ensures
        r == rd_of(w),
        r <= 31,
{
    proof {
        lemma_field_bounds(w);
    }
    bits(w, 11, 7) as u8
}

pub fn rs1(w: u32) -> (r: u8)
    ensures
        r == rs1_of(w),
        r <= 31,
{
    proof {
        lemma_field_bounds(w);
    }
    bits(w, 19, 15) as u8
}

pub fn rs2(w: u32) -> (r: u8)
    ensures
        r == rs2_of(w),
        r <= 31,
{
    proof {
        lemma_field_bounds(w);
    }
    bits(w, 24, 20) as u8
}

pub fn funct3(w: u32) -> (r: u32)
    ensures
        r == funct3_of(w),
        r < 8,
{
    proof {
        lemma_field_bounds(w);
    }
    bits(w, 14, 12)
}

pub fn funct7(w: u32) -> (r: u32)
    ensures
        r == funct7_of(w),
        r < 128,
{
    proof {
        lemma_field_bounds(w);
    }
    bits(w, 31, 25)
}

/// The I-type immediate; as a signed number it is `w` shifted right
/// arithmetically by 20.
pub fn i_imm(w: u32) -> (r: u32)
    ensures
        r == i_imm_of(w),
        r as i32 == (w as i32) >> 20u32,
{
    let r = sign_extend(bits(w, 31, 20), 12, 32);
    assert(i_imm_of(w) as i32 == (w as i32) >> 20u32) by (bit_vector);
    r
}

/// The S-type immediate.
pub fn s_imm(w: u32) -> (r: u32)
    ensures
        r == s_imm_of(w),
        r as i32 == (((w as i32) >> 25u32) << 5u32) | (field(w, 11, 7) as i32),
{
    let hi = bits(w, 31, 25);
    let lo = bits(w, 11, 7);
    let r = sign_extend((hi << 5) | lo, 12, 32);
    assert(s_imm_of(w) as i32 == (((w as i32) >> 25u32) << 5u32) | (field(w, 11, 7) as i32))
        by (bit_vector);
    r
}

/// The B-type immediate: an even offset in `-4096 ..= 4094`.
pub fn b_imm(w: u32) -> (r: u32)
    ensures
        r == b_imm_of(w),
        -4096 <= r as i32 <= 4094,
        r & 1 == 0,
{
    let v = (bit(w, 31) << 12) | (bit(w, 7) << 11) | (bits(w, 30, 25) << 5) | (bits(w, 11, 8) << 1);
    let r = sign_extend(v, 13, 32);
    assert(-4096 <= b_imm_of(w) as i32 <= 4094 && b_imm_of(w) & 1 == 0) by (bit_vector);
    r
}

/// The U-type immediate: the low 12 bits of `w` cleared.
pub fn u_imm(w: u32) -> (r: u32)
    ensures
        r == u_imm_of(w),
        r == w & 0xffff_f000,
{
    let r = bits(w, 31, 12) << 12;
    assert(u_imm_of(w) == w & 0xffff_f000) by (bit_vector);
    r
}

/// The J-type immediate: an even offset in `-2^20 ..= 2^20 - 2`.
pub fn j_imm(w: u32) -> (r: u32)
    ensures
        r == j_imm_of(w),
        -0x10_0000 <= r as i32 <= 0x0f_fffe,
        r & 1 == 0,
{
    let v = (bit(w, 31) << 20) | (bits(w, 19, 12) << 12) | (bit(w, 20) << 11) | (bits(w, 30, 21)
        << 1);
    let r = sign_extend(v, 21, 32);
    assert(-0x10_0000 <= j_imm_of(w) as i32 <= 0x0f_fffe && j_imm_of(w) & 1 == 0) by (bit_vector);
    r
}

} // verus!
