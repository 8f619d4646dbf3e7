//! The flat instruction record: one shape for every instruction, with a
//! coarse opcode tag, a numeric sub-tag, three register fields and one
//! immediate (each 0 when unused), and its immediate normalizer.
use vstd::prelude::*;

use crate::bits::{bits, field};
use crate::format::{
    b_imm, b_imm_of, i_imm, i_imm_of, j_imm, j_imm_of, rd, rd_of, rs1, rs1_of, rs2, rs2_of, s_imm,
    s_imm_of, u_imm, u_imm_of,
};

verus! {

/// The coarse class of a flat record.
#[allow(non_camel_case_types)]
#[derive(Debug, Clone, Copy, PartialEq, Eq, Structural)]
pub enum OpCode {
    invalid,
    lui,
    auipc,
    jal,
    jalr,
    br,
    load,
    store,
    iop,
    op,
    fence,
    excep,
    csr,
}

/// A decoded instruction in the flat shape.
#[derive(Debug, Clone, Copy, PartialEq, Eq, Structural)]
pub struct FlatRiscV {
    pub opcode: OpCode,
    pub ext_op: u16,
    pub rd: u8,
    pub rs1: u8,
    pub rs2: u8,
    /// The immediate or shift amount.
    pub imm: u32,
}

// Sub-tags of `br`.
pub const BR_EQ: u16 = 0b000;

pub const BR_NE: u16 = 0b001;

pub const BR_LT: u16 = 0b100;

pub const BR_GE: u16 = 0b101;

pub const BR_LTU: u16 = 0b110;

pub const BR_GEU: u16 = 0b111;

// Sub-tags of `load` and `store`: the access width.
pub const LS_B: u16 = 0b000;

pub const LS_H: u16 = 0b001;

pub const LS_W: u16 = 0b010;

pub const LS_D: u16 = 0b011;

pub const LS_BU: u16 = 0b100;

pub const LS_HU: u16 = 0b101;

pub const LS_WU: u16 = 0b110;

// Sub-tags of `iop` and `op`: the operation; the low bit marks a word form.
pub const ALU_ADD: u16 = 0b00000;

pub const ALU_ADDW: u16 = 0b00001;

pub const ALU_SUB: u16 = 0b00010;

pub const ALU_SUBW: u16 = 0b00011;

pub const ALU_SLL: u16 = 0b00100;

pub const ALU_SLLW: u16 = 0b00101;

pub const ALU_SLT: u16 = 0b01000;

pub const ALU_SLTU: u16 = 0b01100;

pub const ALU_XOR: u16 = 0b10000;

pub const ALU_SRL: u16 = 0b10100;

pub const ALU_SRLW: u16 = 0b10101;

pub const ALU_SRA: u16 = 0b10110;

pub const ALU_SRAW: u16 = 0b10111;

pub const ALU_OR: u16 = 0b11000;

pub const ALU_AND: u16 = 0b11100;

/// Sub-tag of `fence` for `fence.i`.
pub const FENCE_I: u16 = 0b1;

/// Sub-tag of `excep` for the environment call.
pub const EXCEP_CALL: u16 = 0b0;

/// Sub-tag of `excep` for the breakpoint / return-from-exception slot.
pub const EXCEP_RET: u16 = 0b1;

// Sub-tags of `csr`: `funct3` of the instruction.
pub const CSR_RW: u16 = 0b001;

pub const CSR_RS: u16 = 0b010;

pub const CSR_RC: u16 = 0b011;

pub const CSR_RWI: u16 = 0b101;

pub const CSR_RSI: u16 = 0b110;

pub const CSR_RCI: u16 = 0b111;

/// The six instruction formats.
#[derive(Debug, Clone, Copy, PartialEq, Eq, Structural)]
pub enum Format {
    R,
    I,
    S,
    B,
    U,
    J,
}

/// The flat record that the format extractor of `format` builds from `w`,
/// stamped with the given tag and sub-tag; unused fields are 0.
pub open spec fn record_of(format: Format, opcode: OpCode, ext_op: u16, w: u32) -> FlatRiscV {
    match format {
        Format::R => FlatRiscV {
            opcode,
            ext_op,
            rd: rd_of(w),
            rs1: rs1_of(w),
            rs2: rs2_of(w),
            imm: 0,
        },
        Format::I => FlatRiscV { opcode, ext_op, rd: rd_of(w), rs1: rs1_of(w), rs2: 0, imm: i_imm_of(w) },
        Format::S => FlatRiscV { opcode, ext_op, rd: 0, rs1: rs1_of(w), rs2: rs2_of(w), imm: s_imm_of(w) },
        Format::B => FlatRiscV { opcode, ext_op, rd: 0, rs1: rs1_of(w), rs2: rs2_of(w), imm: b_imm_of(w) },
        Format::U => FlatRiscV { opcode, ext_op, rd: rd_of(w), rs1: 0, rs2: 0, imm: u_imm_of(w) },
        Format::J => FlatRiscV { opcode, ext_op, rd: rd_of(w), rs1: 0, rs2: 0, imm: j_imm_of(w) },
    }
}

/// Builds the flat record of `w` in the given format.
pub fn record(format: Format, opcode: OpCode, ext_op: u16, w: u32) -> (r: FlatRiscV)
    ensures
        r == record_of(format, opcode, ext_op, w),
{
    match format {
        Format::R => FlatRiscV { opcode, ext_op, rd: rd(w), rs1: rs1(w), rs2: rs2(w), imm: 0 },
        Format::I => FlatRiscV { opcode, ext_op, rd: rd(w), rs1: rs1(w), rs2: 0, imm: i_imm(w) },
        Format::S => FlatRiscV { opcode, ext_op, rd: 0, rs1: rs1(w), rs2: rs2(w), imm: s_imm(w) },
        Format::B => FlatRiscV { opcode, ext_op, rd: 0, rs1: rs1(w), rs2: rs2(w), imm: b_imm(w) },
        Format::U => FlatRiscV { opcode, ext_op, rd: rd(w), rs1: 0, rs2: 0, imm: u_imm(w) },
        Format::J => FlatRiscV { opcode, ext_op, rd: rd(w), rs1: 0, rs2: 0, imm: j_imm(w) },
    }
}

/// A register-immediate shift of the full register width.
pub open spec fn is_shift_imm(f: FlatRiscV) -> bool {
    f.opcode == OpCode::iop && (f.ext_op == ALU_SLL || f.ext_op == ALU_SRL || f.ext_op == ALU_SRA)
}

/// A register-immediate shift of a 32-bit word.
pub open spec fn is_word_shift_imm(f: FlatRiscV) -> bool {
    f.opcode == OpCode::iop && (f.ext_op == ALU_SLLW || f.ext_op == ALU_SRLW || f.ext_op
        == ALU_SRAW)
}

/// An operation that carries no immediate.
pub open spec fn has_no_imm(f: FlatRiscV) -> bool {
    f.opcode == OpCode::op || (f.opcode == OpCode::excep && f.ext_op == EXCEP_RET)
}

/// The record with its immediate put in canonical form: shift amounts cut
/// to 5 bits (word shifts, and all shifts when `is_32bit`) or 6 bits, and
/// the immediate of an operation that has none set to 0.
pub open spec fn normalized(f: FlatRiscV, is_32bit: bool) -> FlatRiscV {
    if is_shift_imm(f) {
        FlatRiscV {
            imm: if is_32bit {
                field(f.imm, 4, 0)
            } else {
                field(f.imm, 5, 0)
            },
            ..f
        }
    } else if is_word_shift_imm(f) {
        FlatRiscV { imm: field(f.imm, 4, 0), ..f }
    } else if has_no_imm(f) {
        FlatRiscV { imm: 0, ..f }
    } else {
        f
    }
}

impl FlatRiscV {
    /// Normalizes the immediate for a 32-bit (`is_32bit`) or 64-bit machine.
    pub fn post_process(&mut self, is_32bit: bool)
        ensures
            *final(self) == normalized(*old(self), is_32bit),
    {
        let shift = self.opcode == OpCode::iop && (self.ext_op == ALU_SLL || self.ext_op == ALU_SRL
            || self.ext_op == ALU_SRA);
        let word_shift = self.opcode == OpCode::iop && (self.ext_op == ALU_SLLW || self.ext_op
            == ALU_SRLW || self.ext_op == ALU_SRAW);
        if shift {
            if is_32bit {
                self.imm = bits(self.imm, 4, 0);
            } else {
                self.imm = bits(self.imm, 5, 0);
            }
        } else if word_shift {
            self.imm = bits(self.imm, 4, 0);
        } else if self.opcode == OpCode::op || (self.opcode == OpCode::excep && self.ext_op
            == EXCEP_RET) {
            self.imm = 0;
        }
    }
}

proof fn lemma_field_idempotent(x: u32)
    by (bit_vector)
    ensures
        field(field(x, 4, 0), 4, 0) == field(x, 4, 0),
        field(field(x, 5, 0), 5, 0) == field(x, 5, 0),
{
}

/// Normalizing twice with the same word-size flag gives the same record as
/// normalizing once.
pub proof fn lemma_normalize_idempotent(f: FlatRiscV, is_32bit: bool)
    ensures
        normalized(normalized(f, is_32bit), is_32bit) == normalized(f, is_32bit),
{
    lemma_field_idempotent(f.imm);
}

} // verus!
