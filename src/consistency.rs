//! The structured and the flat decoders agree: whenever both decode a word,
//! they name the same instruction with the same operands.
use vstd::prelude::*;

use crate::bits::field;
use crate::decode::decoded;
use crate::flat::{
    FlatRiscV, OpCode, ALU_ADD, ALU_ADDW, ALU_AND, ALU_OR, ALU_SLL, ALU_SLLW, ALU_SLT, ALU_SLTU,
    ALU_SRA, ALU_SRAW, ALU_SRL, ALU_SRLW, ALU_SUB, ALU_SUBW, ALU_XOR, BR_EQ, BR_GE, BR_GEU, BR_LT,
    BR_LTU, BR_NE, CSR_RC, CSR_RS, CSR_RW, EXCEP_CALL, EXCEP_RET, FENCE_I, LS_B, LS_BU, LS_D, LS_H,
    LS_HU, LS_W, LS_WU,
};
use crate::flat_table::{first_match, flat_decoded};
use crate::format::{b_imm_of, funct3_of, i_imm_of, j_imm_of, lemma_field_bounds, opcode_of, s_imm_of};
use crate::isa::{
    BrType, Csr, CsrOpType, EOpType, IsFenceI, LoadType, OpType, Pred, RiscV, StoreType, Succ,
};

verus! {

pub open spec fn br_ext(c: BrType) -> u16 {
    match c {
        BrType::Eq => BR_EQ,
        BrType::Ne => BR_NE,
        BrType::Lt => BR_LT,
        BrType::Ge => BR_GE,
        BrType::Ltu => BR_LTU,
        BrType::Geu => BR_GEU,
    }
}

pub open spec fn load_ext(t: LoadType) -> u16 {
    match t {
        LoadType::Byte => LS_B,
        LoadType::Half => LS_H,
        LoadType::Word => LS_W,
        LoadType::Double => LS_D,
        LoadType::ByteU => LS_BU,
        LoadType::HalfU => LS_HU,
        LoadType::WordU => LS_WU,
    }
}

pub open spec fn store_ext(t: StoreType) -> u16 {
    match t {
        StoreType::Byte => LS_B,
        StoreType::Half => LS_H,
        StoreType::Word => LS_W,
        StoreType::Double => LS_D,
    }
}

pub open spec fn op_ext(t: OpType) -> u16 {
    match t {
        OpType::Add => ALU_ADD,
        OpType::Sub => ALU_SUB,
        OpType::Sll => ALU_SLL,
        OpType::Slt => ALU_SLT,
        OpType::Sltu => ALU_SLTU,
        OpType::Xor => ALU_XOR,
        OpType::Srl => ALU_SRL,
        OpType::Sra => ALU_SRA,
        OpType::Or => ALU_OR,
        OpType::And => ALU_AND,
    }
}

/// The sub-tag of the word form of an operation (only ADD, SUB and the
/// shifts have one).
pub open spec fn op_word_ext(t: OpType) -> Option<u16> {
    match t {
        OpType::Add => Some(ALU_ADDW),
        OpType::Sub => Some(ALU_SUBW),
        OpType::Sll => Some(ALU_SLLW),
        OpType::Srl => Some(ALU_SRLW),
        OpType::Sra => Some(ALU_SRAW),
        _ => None,
    }
}

pub open spec fn csr_ext(t: CsrOpType) -> u16 {
    match t {
        CsrOpType::Rw => CSR_RW,
        CsrOpType::Rs => CSR_RS,
        CsrOpType::Rc => CSR_RC,
    }
}

/// The structured instruction `i` and the flat record `f` name the same
/// instruction with the same operands; a signed immediate of `i` equals the
/// 32-bit immediate of `f` read as two's complement.
pub open spec fn operands_agree(i: RiscV, f: FlatRiscV) -> bool {
    match i {
        RiscV::Lui(rd, imm) => f.opcode == OpCode::lui && f.rd == rd.0 && f.imm == imm,
        RiscV::Auipc(rd, imm) => f.opcode == OpCode::auipc && f.rd == rd.0 && f.imm == imm,
        RiscV::Jal(rd, off) => f.opcode == OpCode::jal && f.rd == rd.0 && f.imm == off as u32,
        RiscV::Jalr(rd, rs1, off) => f.opcode == OpCode::jalr && f.rd == rd.0 && f.rs1 == rs1.0
            && f.imm == off as u32,
        RiscV::Branch(c, rs1, rs2, off) => f.opcode == OpCode::br && f.ext_op == br_ext(c) && f.rs1
            == rs1.0 && f.rs2 == rs2.0 && f.imm == off as u32,
        RiscV::Load(t, rd, rs1, off) => f.opcode == OpCode::load && f.ext_op == load_ext(t) && f.rd
            == rd.0 && f.rs1 == rs1.0 && f.imm == off as u32,
        RiscV::Store(t, rs1, rs2, off) => f.opcode == OpCode::store && f.ext_op == store_ext(t)
            && f.rs1 == rs1.0 && f.rs2 == rs2.0 && f.imm == off as u32,
        RiscV::OpI(t, rd, rs1, imm) => f.opcode == OpCode::iop && f.ext_op == op_ext(t) && f.rd
            == rd.0 && f.rs1 == rs1.0 && f.imm == imm as u32,
        RiscV::OpIW(t, rd, rs1, imm) => f.opcode == OpCode::iop && op_word_ext(t) == Some(f.ext_op)
            && f.rd == rd.0 && f.rs1 == rs1.0 && f.imm == imm as u32,
        RiscV::Op(t, rd, rs1, rs2) => f.opcode == OpCode::op && f.ext_op == op_ext(t) && f.rd
            == rd.0 && f.rs1 == rs1.0 && f.rs2 == rs2.0,
        RiscV::OpW(t, rd, rs1, rs2) => f.opcode == OpCode::op && op_word_ext(t) == Some(f.ext_op)
            && f.rd == rd.0 && f.rs1 == rs1.0 && f.rs2 == rs2.0,
        RiscV::Fence(IsFenceI(is_i), Pred(p), Succ(s)) => f.opcode == OpCode::fence && if is_i {
            f.ext_op == FENCE_I
        } else {
            f.ext_op == 0 && p as u32 == field(f.imm, 7, 4) && s as u32 == field(f.imm, 3, 0)
        },
        RiscV::EOp(EOpType::Call) => f.opcode == OpCode::excep && f.ext_op == EXCEP_CALL,
        RiscV::EOp(EOpType::Break) => f.opcode == OpCode::excep && f.ext_op == EXCEP_RET,
        RiscV::CsrOp(t, rd, rs1, Csr(c)) => f.opcode == OpCode::csr && f.ext_op == csr_ext(t)
            && f.rd == rd.0 && f.rs1 == rs1.0 && c as u32 == field(f.imm, 11, 0),
        RiscV::CsrOpI(t, rd, z, Csr(c)) => f.opcode == OpCode::csr && f.ext_op == csr_ext(t) + 4
            && f.rd == rd.0 && f.rs1 == z && c as u32 == field(f.imm, 11, 0),
    }
}

proof fn lemma_immediates(w: u32)
    by (bit_vector)
    ensures
        (i_imm_of(w) as i16) as u32 == i_imm_of(w),
        (s_imm_of(w) as i16) as u32 == s_imm_of(w),
        (b_imm_of(w) as i16) as u32 == b_imm_of(w),
        (j_imm_of(w) as i32) as u32 == j_imm_of(w),
        (field(w, 27, 24) as u8) as u32 == field(i_imm_of(w), 7, 4),
        (field(w, 23, 20) as u8) as u32 == field(i_imm_of(w), 3, 0),
        (field(w, 31, 20) as u16) as u32 == field(i_imm_of(w), 11, 0),
{
}

/// Whenever both the structured decoder and the template table decode a
/// word, they agree on the instruction and its operands.
pub proof fn lemma_paths_agree(w: u32)
    requires
        decoded(w) is Some,
        flat_decoded(w) is Some,
    ensures
        operands_agree(decoded(w)->Some_0, flat_decoded(w)->Some_0),
{
    lemma_immediates(w);
    reveal_with_fuel(first_match, 60);
}

/// The two decoders recognize the same words, except that the structured
/// decoder, unlike the template table, reads `jalr` without looking at its
/// `funct3` field.
pub proof fn lemma_same_words(w: u32)
    ensures
        flat_decoded(w) is Some ==> decoded(w) is Some,
        decoded(w) is Some && !(opcode_of(w) == 0b1100111 && funct3_of(w) != 0) ==> flat_decoded(
            w,
        ) is Some,
{
    lemma_field_bounds(w);
    reveal_with_fuel(first_match, 60);
}

} // verus!
