//! Decoding of 32-bit RISC-V integer instruction words, into a tagged union
//! (`disassembly`) or into a uniform flat record driven by bit-pattern
//! templates (`flat_disasm`).
use vstd::prelude::*;

pub mod bits;
pub mod format;
pub mod isa;
pub mod decode;
pub mod disassembly;
pub mod pattern;
pub mod flat;
pub mod flat_table;
pub mod consistency;
pub mod memory_layout;
pub mod render;

pub use bits::{bit, bits, sign_extend};
pub use disassembly::disassembly;
pub use flat::{FlatRiscV, OpCode};
pub use flat_table::flat_disasm;
pub use isa::{
    BrType, Csr, CsrOpType, EOpType, IsFenceI, LoadType, OpType, Pred, Reg, RiscV, StoreType, Succ,
};
pub use pattern::bitpat;
