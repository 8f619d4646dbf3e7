//! The structured decoder's executable dispatch, one function per major opcode.
use vstd::prelude::*;

use crate::bits::bits;
use crate::decode::{decoded, is_major_opcode};
use crate::format::{
    b_imm, funct3, funct7, i_imm, j_imm, lemma_field_bounds, opcode, opcode_of, rd, rs1, rs2, s_imm,
    u_imm,
};
use crate::isa::{
    BrType, Csr, CsrOpType, EOpType, IsFenceI, LoadType, OpType, Pred, Reg, RiscV, StoreType, Succ,
};

verus! {

/// lui
fn inst_0110111(w: u32) -> (r: RiscV)
    requires
        opcode_of(w) == 0b0110111,
    ensures
        decoded(w) == Some(r),
{
    RiscV::Lui(Reg(rd(w)), u_imm(w))
}

/// auipc
fn inst_0010111(w: u32) -> (r: RiscV)
    requires
        opcode_of(w) == 0b0010111,
    ensures
        decoded(w) == Some(r),
{
    RiscV::Auipc(Reg(rd(w)), u_imm(w))
}

/// jal
fn inst_1101111(w: u32) -> (r: RiscV)
    requires
        opcode_of(w) == 0b1101111,
    ensures
        decoded(w) == Some(r),
{
    RiscV::Jal(Reg(rd(w)), j_imm(w) as i32)
}

/// jalr
fn inst_1100111(w: u32) -> (r: RiscV)
    requires
        opcode_of(w) == 0b1100111,
    ensures
        decoded(w) == Some(r),
{
    RiscV::Jalr(Reg(rd(w)), Reg(rs1(w)), i_imm(w) as i16)
}

/// branch
fn inst_1100011(w: u32) -> (r: Option<RiscV>)
    requires
        opcode_of(w) == 0b1100011,
    ensures
        r == decoded(w),
{
    let cond = match funct3(w) {
        0b000 => BrType::Eq,
        0b001 => BrType::Ne,
        0b100 => BrType::Lt,
        0b101 => BrType::Ge,
        0b110 => BrType::Ltu,
        0b111 => BrType::Geu,
        _ => {
            return None;
        },
    };
    Some(RiscV::Branch(cond, Reg(rs1(w)), Reg(rs2(w)), b_imm(w) as i16))
}

/// load
fn inst_0000011(w: u32) -> (r: Option<RiscV>)
    requires
        opcode_of(w) == 0b0000011,
    ensures
        r == decoded(w),
{
    let ty = match funct3(w) {
        0b000 => LoadType::Byte,
        0b001 => LoadType::Half,
        0b010 => LoadType::Word,
        0b011 => LoadType::Double,
        0b100 => LoadType::ByteU,
        0b101 => LoadType::HalfU,
        0b110 => LoadType::WordU,
        _ => {
            return None;
        },
    };
    Some(RiscV::Load(ty, Reg(rd(w)), Reg(rs1(w)), i_imm(w) as i16))
}

/// store
fn inst_0100011(w: u32) -> (r: Option<RiscV>)
    requires
        opcode_of(w) == 0b0100011,
    ensures
        r == decoded(w),
{
    let ty = match funct3(w) {
        0b000 => StoreType::Byte,
        0b001 => StoreType::Half,
        0b010 => StoreType::Word,
        0b011 => StoreType::Double,
        _ => {
            return None;
        },
    };
    Some(RiscV::Store(ty, Reg(rs1(w)), Reg(rs2(w)), s_imm(w) as i16))
}

/// op imm
fn inst_0010011(w: u32) -> (r: Option<RiscV>)
    requires
        opcode_of(w) == 0b0010011,
    ensures
        r == decoded(w),
{
    let ty = match funct3(w) {
        0b000 => OpType::Add,
        0b010 => OpType::Slt,
        0b011 => OpType::Sltu,
        0b100 => OpType::Xor,
        0b110 => OpType::Or,
        0b111 => OpType::And,
        0b001 => match bits(w, 31, 26) {
            0b000000 => OpType::Sll,
            _ => {
                return None;
            },
        },
        _ => match bits(w, 31, 26) {
            0b000000 => OpType::Srl,
            0b010000 => OpType::Sra,
            _ => {
                return None;
            },
        },
    };
    Some(RiscV::OpI(ty, Reg(rd(w)), Reg(rs1(w)), i_imm(w) as i16))
}

/// op imm word
fn inst_0011011(w: u32) -> (r: Option<RiscV>)
    requires
        opcode_of(w) == 0b0011011,
    ensures
        r == decoded(w),
{
    let ty = match funct3(w) {
        0b000 => OpType::Add,
        0b001 => match funct7(w) {
            0b0000000 => OpType::Sll,
            _ => {
                return None;
            },
        },
        0b101 => match funct7(w) {
            0b0000000 => OpType::Srl,
            0b0100000 => OpType::Sra,
            _ => {
                return None;
            },
        },
        _ => {
            return None;
        },
    };
    Some(RiscV::OpIW(ty, Reg(rd(w)), Reg(rs1(w)), i_imm(w) as i16))
}

/// op
fn inst_0110011(w: u32) -> (r: Option<RiscV>)
    requires
        opcode_of(w) == 0b0110011,
    ensures
        r == decoded(w),
{
    let ty = match funct3(w) {
        0b000 => match funct7(w) {
            0b0000000 => OpType::Add,
            0b0100000 => OpType::Sub,
            _ => {
                return None;
            },
        },
        0b001 => OpType::Sll,
        0b010 => OpType::Slt,
        0b011 => OpType::Sltu,
        0b100 => OpType::Xor,
        0b101 => match funct7(w) {
            0b0000000 => OpType::Srl,
            0b0100000 => OpType::Sra,
            _ => {
                return None;
            },
        },
        0b110 => OpType::Or,
        _ => OpType::And,
    };
    Some(RiscV::Op(ty, Reg(rd(w)), Reg(rs1(w)), Reg(rs2(w))))
}

/// op word
fn inst_0111011(w: u32) -> (r: Option<RiscV>)
    requires
        opcode_of(w) == 0b0111011,
    ensures
        r == decoded(w),
{
    let ty = match funct3(w) {
        0b000 => match funct7(w) {
            0b0000000 => OpType::Add,
            0b0100000 => OpType::Sub,
            _ => {
                return None;
            },
        },
        0b001 => OpType::Sll,
        0b101 => match funct7(w) {
            0b0000000 => OpType::Srl,
            0b0100000 => OpType::Sra,
            _ => {
                return None;
            },
        },
        _ => {
            return None;
        },
    };
    Some(RiscV::OpW(ty, Reg(rd(w)), Reg(rs1(w)), Reg(rs2(w))))
}

/// fence
fn inst_0001111(w: u32) -> (r: Option<RiscV>)
    requires
        opcode_of(w) == 0b0001111,
    ensures
        r == decoded(w),
{
    proof {
        lemma_field_bounds(w);
    }
    match funct3(w) {
        0b000 => Some(
            RiscV::Fence(IsFenceI(false), Pred(bits(w, 27, 24) as u8), Succ(bits(w, 23, 20) as u8)),
        ),
        0b001 => Some(RiscV::Fence(IsFenceI(true), Pred(0), Succ(0))),
        _ => None,
    }
}

/// system: environment calls and CSR access
fn inst_1110011(w: u32) -> (r: Option<RiscV>)
    requires
        opcode_of(w) == 0b1110011,
    ensures
        r == decoded(w),
{
    proof {
        lemma_field_bounds(w);
    }
    let imm = bits(w, 31, 20);
    let csr = Csr(imm as u16);
    match funct3(w) {
        0b000 => match imm {
            0 => Some(RiscV::EOp(EOpType::Call)),
            1 => Some(RiscV::EOp(EOpType::Break)),
            _ => None,
        },
        0b001 => Some(RiscV::CsrOp(CsrOpType::Rw, Reg(rd(w)), Reg(rs1(w)), csr)),
        0b010 => Some(RiscV::CsrOp(CsrOpType::Rs, Reg(rd(w)), Reg(rs1(w)), csr)),
        0b011 => Some(RiscV::CsrOp(CsrOpType::Rc, Reg(rd(w)), Reg(rs1(w)), csr)),
        0b101 => Some(RiscV::CsrOpI(CsrOpType::Rw, Reg(rd(w)), rs1(w), csr)),
        0b110 => Some(RiscV::CsrOpI(CsrOpType::Rs, Reg(rd(w)), rs1(w), csr)),
        0b111 => Some(RiscV::CsrOpI(CsrOpType::Rc, Reg(rd(w)), rs1(w), csr)),
        _ => None,
    }
}

/// Decodes one 32-bit instruction word. On success the second component is
/// the number of bytes consumed, always 4; a word whose major opcode is not
/// one of the thirteen supported ones, or whose `funct3` / `funct7` /
/// immediate selector bits name no supported instruction, gives `None`.
pub fn disassembly(code: u32) -> (r: Option<(RiscV, usize)>)
    ensures
        r == match decoded(code) {
            Some(i) => Some((i, 4usize)),
            None => None::<(RiscV, usize)>,
        },
        !is_major_opcode(opcode_of(code)) ==> r is None,
{
    let i = match opcode(code) {
        0b0110111 => inst_0110111(code),
        0b0010111 => inst_0010111(code),
        0b1101111 => inst_1101111(code),
        0b1100111 => inst_1100111(code),
        0b1100011 => inst_1100011(code)?,
        0b0000011 => inst_0000011(code)?,
        0b0100011 => inst_0100011(code)?,
        0b0010011 => inst_0010011(code)?,
        0b0011011 => inst_0011011(code)?,
        0b0110011 => inst_0110011(code)?,
        0b0111011 => inst_0111011(code)?,
        0b0001111 => inst_0001111(code)?,
        0b1110011 => inst_1110011(code)?,
        _ => {
            return None;
        },
    };
    Some((i, 4))
}

} // verus!
