//! The structured decoder: dispatch on the major opcode, then on `funct3`,
//! then on `funct7` or the upper immediate bits where `funct3` is ambiguous.
use vstd::prelude::*;

use crate::bits::field;
use crate::format::{
    b_imm_of, funct3_of, funct7_of, i_imm_of, j_imm_of, opcode_of, rd_of, rs1_of, rs2_of, s_imm_of,
    u_imm_of,
};
use crate::isa::{
    BrType, Csr, CsrOpType, EOpType, IsFenceI, LoadType, OpType, Pred, Reg, RiscV, StoreType, Succ,
};

verus! {

/// The thirteen major opcodes that the decoder supports.
pub open spec fn is_major_opcode(op: u32) -> bool {
    op == 0b0110111 || op == 0b0010111 || op == 0b1101111 || op == 0b1100111 || op == 0b1100011
        || op == 0b0000011 || op == 0b0100011 || op == 0b0010011 || op == 0b0011011 || op
        == 0b0110011 || op == 0b0111011 || op == 0b0001111 || op == 0b1110011
}

pub open spec fn branch_type(f3: u32) -> Option<BrType> {
    match f3 {
        0b000 => Some(BrType::Eq),
        0b001 => Some(BrType::Ne),
        0b100 => Some(BrType::Lt),
        0b101 => Some(BrType::Ge),
        0b110 => Some(BrType::Ltu),
        0b111 => Some(BrType::Geu),
        _ => None,
    }
}

pub open spec fn load_type(f3: u32) -> Option<LoadType> {
    match f3 {
        0b000 => Some(LoadType::Byte),
        0b001 => Some(LoadType::Half),
        0b010 => Some(LoadType::Word),
        0b011 => Some(LoadType::Double),
        0b100 => Some(LoadType::ByteU),
        0b101 => Some(LoadType::HalfU),
        0b110 => Some(LoadType::WordU),
        _ => None,
    }
}

pub open spec fn store_type(f3: u32) -> Option<StoreType> {
    match f3 {
        0b000 => Some(StoreType::Byte),
        0b001 => Some(StoreType::Half),
        0b010 => Some(StoreType::Word),
        0b011 => Some(StoreType::Double),
        _ => None,
    }
}

/// OP-IMM: the shifts are told apart by the upper six immediate bits
/// (`w[31:26]`), which leave room for a six-bit shift amount.
pub open spec fn op_imm_type(f3: u32, hi6: u32) -> Option<OpType> {
    match f3 {
        0b000 => Some(OpType::Add),
        0b010 => Some(OpType::Slt),
        0b011 => Some(OpType::Sltu),
        0b100 => Some(OpType::Xor),
        0b110 => Some(OpType::Or),
        0b111 => Some(OpType::And),
        0b001 => if hi6 == 0 {
            Some(OpType::Sll)
        } else {
            None
        },
        0b101 => if hi6 == 0 {
            Some(OpType::Srl)
        } else if hi6 == 0b010000 {
            Some(OpType::Sra)
        } else {
            None
        },
        _ => None,
    }
}

/// OP-IMM-32: the word shifts are told apart by the upper seven immediate
/// bits (`w[31:25]`), which leave room for a five-bit shift amount.
pub open spec fn op_imm_word_type(f3: u32, f7: u32) -> Option<OpType> {
    match f3 {
        0b000 => Some(OpType::Add),
        0b001 => if f7 == 0 {
            Some(OpType::Sll)
        } else {
            None
        },
        0b101 => if f7 == 0 {
            Some(OpType::Srl)
        } else if f7 == 0b0100000 {
            Some(OpType::Sra)
        } else {
            None
        },
        _ => None,
    }
}

/// OP: `funct7` decides between ADD and SUB, and between SRL and SRA.
pub open spec fn op_type(f3: u32, f7: u32) -> Option<OpType> {
    match f3 {
        0b000 => if f7 == 0 {
            Some(OpType::Add)
        } else if f7 == 0b0100000 {
            Some(OpType::Sub)
        } else {
            None
        },
        0b001 => Some(OpType::Sll),
        0b010 => Some(OpType::Slt),
        0b011 => Some(OpType::Sltu),
        0b100 => Some(OpType::Xor),
        0b101 => if f7 == 0 {
            Some(OpType::Srl)
        } else if f7 == 0b0100000 {
            Some(OpType::Sra)
        } else {
            None
        },
        0b110 => Some(OpType::Or),
        0b111 => Some(OpType::And),
        _ => None,
    }
}

/// OP-32: the word forms of ADD, SUB, SLL, SRL and SRA.
pub open spec fn op_word_type(f3: u32, f7: u32) -> Option<OpType> {
    match f3 {
        0b000 => if f7 == 0 {
            Some(OpType::Add)
        } else if f7 == 0b0100000 {
            Some(OpType::Sub)
        } else {
            None
        },
        0b001 => Some(OpType::Sll),
        0b101 => if f7 == 0 {
            Some(OpType::Srl)
        } else if f7 == 0b0100000 {
            Some(OpType::Sra)
        } else {
            None
        },
        _ => None,
    }
}

/// The CSR operation of `funct3` without its immediate bit (`funct3 & 3`).
pub open spec fn csr_type(f3: u32) -> Option<CsrOpType> {
    match f3 {
        0b01 => Some(CsrOpType::Rw),
        0b10 => Some(CsrOpType::Rs),
        0b11 => Some(CsrOpType::Rc),
        _ => None,
    }
}

/// MISC-MEM: `fence` with its predecessor (`w[27:24]`) and successor
/// (`w[23:20]`) sets, or `fence.i`.
pub open spec fn fence_of(w: u32) -> Option<RiscV> {
    match funct3_of(w) {
        0b000 => Some(
            RiscV::Fence(IsFenceI(false), Pred(field(w, 27, 24) as u8), Succ(field(w, 23, 20) as u8)),
        ),
        0b001 => Some(RiscV::Fence(IsFenceI(true), Pred(0), Succ(0))),
        _ => None,
    }
}

/// SYSTEM: `ecall`, `ebreak`, and the six CSR instructions.
pub open spec fn system_of(w: u32) -> Option<RiscV> {
    let f3 = funct3_of(w);
    let imm = field(w, 31, 20);
    if f3 == 0 {
        if imm == 0 {
            Some(RiscV::EOp(EOpType::Call))
        } else if imm == 1 {
            Some(RiscV::EOp(EOpType::Break))
        } else {
            None
        }
    } else if f3 < 4 {
        match csr_type(f3) {
            Some(t) => Some(RiscV::CsrOp(t, Reg(rd_of(w)), Reg(rs1_of(w)), Csr(imm as u16))),
            None => None,
        }
    } else {
        match csr_type((f3 - 4) as u32) {
            Some(t) => Some(RiscV::CsrOpI(t, Reg(rd_of(w)), rs1_of(w), Csr(imm as u16))),
            None => None,
        }
    }
}

/// What the word `w` decodes to, if it is a supported instruction.
pub open spec fn decoded(w: u32) -> Option<RiscV> {
    let rd = Reg(rd_of(w));
    let rs1 = Reg(rs1_of(w));
    let rs2 = Reg(rs2_of(w));
    let f3 = funct3_of(w);
    let f7 = funct7_of(w);
    match opcode_of(w) {
        0b0110111 => Some(RiscV::Lui(rd, u_imm_of(w))),
        0b0010111 => Some(RiscV::Auipc(rd, u_imm_of(w))),
        0b1101111 => Some(RiscV::Jal(rd, j_imm_of(w) as i32)),
        0b1100111 => Some(RiscV::Jalr(rd, rs1, i_imm_of(w) as i16)),
        0b1100011 => match branch_type(f3) {
            Some(c) => Some(RiscV::Branch(c, rs1, rs2, b_imm_of(w) as i16)),
            None => None,
        },
        0b0000011 => match load_type(f3) {
            Some(t) => Some(RiscV::Load(t, rd, rs1, i_imm_of(w) as i16)),
            None => None,
        },
        0b0100011 => match store_type(f3) {
            Some(t) => Some(RiscV::Store(t, rs1, rs2, s_imm_of(w) as i16)),
            None => None,
        },
        0b0010011 => match op_imm_type(f3, field(w, 31, 26)) {
            Some(t) => Some(RiscV::OpI(t, rd, rs1, i_imm_of(w) as i16)),
            None => None,
        },
        0b0011011 => match op_imm_word_type(f3, f7) {
            Some(t) => Some(RiscV::OpIW(t, rd, rs1, i_imm_of(w) as i16)),
            None => None,
        },
        0b0110011 => match op_type(f3, f7) {
            Some(t) => Some(RiscV::Op(t, rd, rs1, rs2)),
            None => None,
        },
        0b0111011 => match op_word_type(f3, f7) {
            Some(t) => Some(RiscV::OpW(t, rd, rs1, rs2)),
            None => None,
        },
        0b0001111 => fence_of(w),
        0b1110011 => system_of(w),
        _ => None,
    }
}

} // verus!
