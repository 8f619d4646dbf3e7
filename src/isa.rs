//! The structured (tagged-union) representation of a decoded instruction.
use vstd::prelude::*;

verus! {

/// A general-purpose register index, `0 ..= 31` in every decoded instruction.
#[derive(Debug, Clone, Copy, PartialEq, Eq, PartialOrd, Ord, Hash, Structural)]
pub struct Reg(pub u8);

impl Reg {
    /// A register reference; the index must name one of the 32 registers.
    pub fn new(value: u8) -> (r: Reg)
        requires
            value <= 0b11111,
        ensures
            r.0 == value,
    {
        Reg(value)
    }
}

/// A control/status register index (12 bits in every decoded instruction).
#[derive(Debug, Clone, Copy, PartialEq, Eq, PartialOrd, Ord, Hash, Structural)]
pub struct Csr(pub u16);

/// The predecessor set of a fence.
#[derive(Debug, Clone, Copy, PartialEq, Eq, PartialOrd, Ord, Hash, Structural)]
pub struct Pred(pub u8);

/// The successor set of a fence.
#[derive(Debug, Clone, Copy, PartialEq, Eq, PartialOrd, Ord, Hash, Structural)]
pub struct Succ(pub u8);

/// Whether a fence is the instruction-stream fence `fence.i`.
#[derive(Debug, Clone, Copy, PartialEq, Eq, PartialOrd, Ord, Hash, Structural)]
pub struct IsFenceI(pub bool);

/// The comparison of a conditional branch.
#[derive(Debug, Clone, Copy, PartialEq, Eq, PartialOrd, Ord, Hash, Structural)]
pub enum BrType {
    Eq,
    Ne,
    Lt,
    Ge,
    Ltu,
    Geu,
}

/// The width and extension of a load.
#[derive(Debug, Clone, Copy, PartialEq, Eq, PartialOrd, Ord, Hash, Structural)]
pub enum LoadType {
    Byte,
    Half,
    Word,
    Double,
    ByteU,
    HalfU,
    WordU,
}

/// The width of a store.
#[derive(Debug, Clone, Copy, PartialEq, Eq, PartialOrd, Ord, Hash, Structural)]
pub enum StoreType {
    Byte,
    Half,
    Word,
    Double,
}

/// The arithmetic or logic operation of a register-immediate or
/// register-register instruction.
#[derive(Debug, Clone, Copy, PartialEq, Eq, PartialOrd, Ord, Hash, Structural)]
pub enum OpType {
    Add,
    Sub,
    Sll,
    Slt,
    Sltu,
    Xor,
    Srl,
    Sra,
    Or,
    And,
}

/// An environment call or breakpoint.
#[derive(Debug, Clone, Copy, PartialEq, Eq, PartialOrd, Ord, Hash, Structural)]
pub enum EOpType {
    Call,
    Break,
}

/// The read-modify-write operation of a CSR instruction.
#[derive(Debug, Clone, Copy, PartialEq, Eq, PartialOrd, Ord, Hash, Structural)]
pub enum CsrOpType {
    Rw,
    Rs,
    Rc,
}

/// A decoded instruction: one variant per instruction class, each carrying
/// the operands of that class.
#[derive(Debug, Clone, Copy, PartialEq, Eq, PartialOrd, Ord, Hash, Structural)]
pub enum RiscV {
    Lui(Reg, u32),
    Auipc(Reg, u32),
    Jal(Reg, i32),
    Jalr(Reg, Reg, i16),
    Branch(BrType, Reg, Reg, i16),
    Load(LoadType, Reg, Reg, i16),
    Store(StoreType, Reg, Reg, i16),
    OpI(OpType, Reg, Reg, i16),
    OpIW(OpType, Reg, Reg, i16),
    Op(OpType, Reg, Reg, Reg),
    OpW(OpType, Reg, Reg, Reg),
    Fence(IsFenceI, Pred, Succ),
    EOp(EOpType),
    CsrOp(CsrOpType, Reg, Reg, Csr),
    CsrOpI(CsrOpType, Reg, u8, Csr),
}

} // verus!
