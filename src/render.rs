//! Assembler-style text of decoded instructions and flat records.
use vstd::prelude::*;
use vstd::string::StringExecFns;

use crate::decode::decoded;
use crate::flat::{FlatRiscV, OpCode};
use crate::isa::{
    BrType, Csr, CsrOpType, EOpType, IsFenceI, LoadType, OpType, Pred, RiscV, StoreType, Succ,
};

verus! {

/// The digit character of `d`.
pub open spec fn digit_char(d: nat) -> char {
    (48 + d) as char
}

/// The digits of `n` in base `base`, most significant first, without
/// leading zeros (`0` is the single digit `0`).
pub open spec fn digits(n: nat, base: nat) -> Seq<char>
    decreases n,
    via digits_decreases
{
    if n < base || base < 2 {
        seq![digit_char(n)]
    } else {
        digits(n / base, base).push(digit_char(n % base))
    }
}

#[via_fn]
proof fn digits_decreases(n: nat, base: nat) {
    if !(n < base || base < 2) {
        assert(n / base < n) by (nonlinear_arith)
            requires
                n >= base,
                base >= 2,
        ;
    }
}

/// Relies on the `Display` impl of `u64` (through `to_string`): the decimal
/// digits of the value, without sign or leading zeros.
#[verifier::external_body]
fn decimal(v: u64) -> (r: String)
    ensures
        r@ == digits(v as nat, 10),
{
    v.to_string()
}

/// Relies on the `Binary` impl of `u64` (`{:b}`): the binary digits of the
/// value, without prefix or leading zeros.
#[verifier::external_body]
fn binary(v: u64) -> (r: String)
    ensures
        r@ == digits(v as nat, 2),
{
    format!("{:b}", v)
}

/// A signed number in decimal, with a `-` before a negative one.
pub open spec fn int_text(v: int) -> Seq<char> {
    if v < 0 {
        "-"@ + digits((-v) as nat, 10)
    } else {
        digits(v as nat, 10)
    }
}

/// A register as `x<index>`.
pub open spec fn reg_text(r: u8) -> Seq<char> {
    "x"@ + digits(r as nat, 10)
}

/// A CSR by the given name, or else by its index in decimal.
pub open spec fn csr_text(c: u16, name: Option<Seq<char>>) -> Seq<char> {
    match name {
        Some(n) => n,
        None => digits(c as nat, 10),
    }
}

/// The combinations of operation and class that have a mnemonic.
pub open spec fn has_mnemonic(i: RiscV) -> bool {
    match i {
        RiscV::OpI(t, _, _, _) => t != OpType::Sub,
        RiscV::OpIW(t, _, _, _) => t == OpType::Add || t == OpType::Sll || t == OpType::Srl || t
            == OpType::Sra,
        RiscV::OpW(t, _, _, _) => t == OpType::Add || t == OpType::Sub || t == OpType::Sll || t
            == OpType::Srl || t == OpType::Sra,
        _ => true,
    }
}

pub open spec fn op_name(t: OpType) -> Seq<char> {
    match t {
        OpType::Add => "add"@,
        OpType::Sub => "sub"@,
        OpType::Sll => "sll"@,
        OpType::Slt => "slt"@,
        OpType::Sltu => "sltu"@,
        OpType::Xor => "xor"@,
        OpType::Srl => "srl"@,
        OpType::Sra => "sra"@,
        OpType::Or => "or"@,
        OpType::And => "and"@,
    }
}

pub open spec fn csr_name_of(t: CsrOpType) -> Seq<char> {
    match t {
        CsrOpType::Rw => "csrrw"@,
        CsrOpType::Rs => "csrrs"@,
        CsrOpType::Rc => "csrrc"@,
    }
}

/// The mnemonic of an instruction.
pub open spec fn mnemonic_of(i: RiscV) -> Seq<char> {
    match i {
        RiscV::Lui(..) => "lui"@,
        RiscV::Auipc(..) => "auipc"@,
        RiscV::Jal(..) => "jal"@,
        RiscV::Jalr(..) => "jalr"@,
        RiscV::Branch(c, _, _, _) => match c {
            BrType::Eq => "beq"@,
            BrType::Ne => "bne"@,
            BrType::Lt => "blt"@,
            BrType::Ge => "bge"@,
            BrType::Ltu => "bltu"@,
            BrType::Geu => "bgeu"@,
        },
        RiscV::Load(t, _, _, _) => match t {
            LoadType::Byte => "lb"@,
            LoadType::Half => "lh"@,
            LoadType::Word => "lw"@,
            LoadType::Double => "ld"@,
            LoadType::ByteU => "lbu"@,
            LoadType::HalfU => "lhu"@,
            LoadType::WordU => "lwu"@,
        },
        RiscV::Store(t, _, _, _) => match t {
            StoreType::Byte => "sb"@,
            StoreType::Half => "sh"@,
            StoreType::Word => "sw"@,
            StoreType::Double => "sd"@,
        },
        RiscV::OpI(t, _, _, _) => match t {
            OpType::Sltu => "sltiu"@,
            _ => op_name(t) + "i"@,
        },
        RiscV::OpIW(t, _, _, _) => op_name(t) + "iw"@,
        RiscV::Op(t, _, _, _) => op_name(t),
        RiscV::OpW(t, _, _, _) => op_name(t) + "w"@,
        RiscV::Fence(IsFenceI(is_i), _, _) => if is_i {
            "fence.i"@
        } else {
            "fence"@
        },
        RiscV::EOp(EOpType::Call) => "ecall"@,
        RiscV::EOp(EOpType::Break) => "ebreak"@,
        RiscV::CsrOp(t, _, _, _) => csr_name_of(t),
        RiscV::CsrOpI(t, _, _, _) => csr_name_of(t) + "i"@,
    }
}

/// The operand list of an instruction, in assembler order.
pub open spec fn operands_of(i: RiscV, csr_name: Option<Seq<char>>) -> Seq<char> {
    match i {
        RiscV::Lui(rd, imm) => reg_text(rd.0) + ", "@ + digits(imm as nat, 10),
        RiscV::Auipc(rd, imm) => reg_text(rd.0) + ", "@ + digits(imm as nat, 10),
        RiscV::Jal(rd, off) => reg_text(rd.0) + ", "@ + int_text(off as int),
        RiscV::Jalr(rd, rs1, off) => reg_text(rd.0) + ", "@ + int_text(off as int) + "("@
            + reg_text(rs1.0) + ")"@,
        RiscV::Branch(_, rs1, rs2, off) => reg_text(rs1.0) + ", "@ + reg_text(rs2.0) + ", "@
            + int_text(off as int),
        RiscV::Load(_, rd, rs1, off) => reg_text(rd.0) + ", "@ + int_text(off as int) + "("@
            + reg_text(rs1.0) + ")"@,
        RiscV::Store(_, rs1, rs2, off) => reg_text(rs2.0) + ", "@ + int_text(off as int) + "("@
            + reg_text(rs1.0) + ")"@,
        RiscV::OpI(_, rd, rs1, imm) => reg_text(rd.0) + ", "@ + reg_text(rs1.0) + ", "@ + int_text(
            imm as int,
        ),
        RiscV::OpIW(_, rd, rs1, imm) => reg_text(rd.0) + ", "@ + reg_text(rs1.0) + ", "@
            + int_text(imm as int),
        RiscV::Op(_, rd, rs1, rs2) => reg_text(rd.0) + ", "@ + reg_text(rs1.0) + ", "@ + reg_text(
            rs2.0,
        ),
        RiscV::OpW(_, rd, rs1, rs2) => reg_text(rd.0) + ", "@ + reg_text(rs1.0) + ", "@
            + reg_text(rs2.0),
        RiscV::Fence(IsFenceI(is_i), Pred(p), Succ(s)) => if is_i {
            Seq::empty()
        } else {
            digits(p as nat, 10) + ", "@ + digits(s as nat, 10)
        },
        RiscV::EOp(_) => Seq::empty(),
        RiscV::CsrOp(_, rd, rs1, Csr(c)) => reg_text(rd.0) + ", "@ + csr_text(c, csr_name) + ", "@
            + reg_text(rs1.0),
        RiscV::CsrOpI(_, rd, z, Csr(c)) => reg_text(rd.0) + ", "@ + csr_text(c, csr_name) + ", "@
            + digits(z as nat, 10),
    }
}

/// The text of an instruction: its mnemonic, then a space and its operands
/// if it has any.
pub open spec fn text_of(i: RiscV, csr_name: Option<Seq<char>>) -> Seq<char> {
    if operands_of(i, csr_name).len() == 0 {
        mnemonic_of(i)
    } else {
        mnemonic_of(i) + " "@ + operands_of(i, csr_name)
    }
}

fn push_unsigned(s: &mut String, v: u64)
    ensures
        final(s)@ == old(s)@ + digits(v as nat, 10),
{
    let d = decimal(v);
    s.append(d.as_str());
}

fn push_int(s: &mut String, v: i64)
    ensures
        final(s)@ == old(s)@ + int_text(v as int),
{
    if v < 0 {
        s.append("-");
        let m: u64 = (0 - (v as i128)) as u64;
        let d = decimal(m);
        s.append(d.as_str());
        assert(final(s)@ =~= old(s)@ + ("-"@ + digits((-v) as nat, 10)));
    } else {
        push_unsigned(s, v as u64);
    }
}

fn push_reg(s: &mut String, r: u8)
    ensures
        final(s)@ == old(s)@ + reg_text(r),
{
    s.append("x");
    push_unsigned(s, r as u64);
    assert(final(s)@ =~= old(s)@ + ("x"@ + digits(r as nat, 10)));
}

fn op_str(t: OpType) -> (r: &'static str)
    ensures
        r@ == op_name(t),
{
    match t {
        OpType::Add => "add",
        OpType::Sub => "sub",
        OpType::Sll => "sll",
        OpType::Slt => "slt",
        OpType::Sltu => "sltu",
        OpType::Xor => "xor",
        OpType::Srl => "srl",
        OpType::Sra => "sra",
        OpType::Or => "or",
        OpType::And => "and",
    }
}

fn csr_str(t: CsrOpType) -> (r: &'static str)
    ensures
        r@ == csr_name_of(t),
{
    match t {
        CsrOpType::Rw => "csrrw",
        CsrOpType::Rs => "csrrs",
        CsrOpType::Rc => "csrrc",
    }
}

impl RiscV {
    /// Whether the instruction has a mnemonic (every decoded one has).
    pub fn is_renderable(&self) -> (r: bool)
        ensures
            r == has_mnemonic(*self),
    {
        match *self {
            RiscV::OpI(t, _, _, _) => t != OpType::Sub,
            RiscV::OpIW(t, _, _, _) => t == OpType::Add || t == OpType::Sll || t == OpType::Srl
                || t == OpType::Sra,
            RiscV::OpW(t, _, _, _) => t == OpType::Add || t == OpType::Sub || t == OpType::Sll || t
                == OpType::Srl || t == OpType::Sra,
            _ => true,
        }
    }

    fn push_mnemonic(&self, s: &mut String)
        ensures
            final(s)@ == old(s)@ + mnemonic_of(*self),
    {
        let old_s = Ghost(s@);
        match *self {
            RiscV::Lui(..) => s.append("lui"),
            RiscV::Auipc(..) => s.append("auipc"),
            RiscV::Jal(..) => s.append("jal"),
            RiscV::Jalr(..) => s.append("jalr"),
            RiscV::Branch(c, _, _, _) => s.append(
                match c {
                    BrType::Eq => "beq",
                    BrType::Ne => "bne",
                    BrType::Lt => "blt",
                    BrType::Ge => "bge",
                    BrType::Ltu => "bltu",
                    BrType::Geu => "bgeu",
                },
            ),
            RiscV::Load(t, _, _, _) => s.append(
                match t {
                    LoadType::Byte => "lb",
                    LoadType::Half => "lh",
                    LoadType::Word => "lw",
                    LoadType::Double => "ld",
                    LoadType::ByteU => "lbu",
                    LoadType::HalfU => "lhu",
                    LoadType::WordU => "lwu",
                },
            ),
            RiscV::Store(t, _, _, _) => s.append(
                match t {
                    StoreType::Byte => "sb",
                    StoreType::Half => "sh",
                    StoreType::Word => "sw",
                    StoreType::Double => "sd",
                },
            ),
            RiscV::OpI(t, _, _, _) => {
                if t == OpType::Sltu {
                    s.append("sltiu");
                } else {
                    s.append(op_str(t));
                    s.append("i");
                    assert(s@ =~= old_s@ + (op_name(t) + "i"@));
                }
            },
            RiscV::OpIW(t, _, _, _) => {
                s.append(op_str(t));
                s.append("iw");
                assert(s@ =~= old_s@ + (op_name(t) + "iw"@));
            },
            RiscV::Op(t, _, _, _) => s.append(op_str(t)),
            RiscV::OpW(t, _, _, _) => {
                s.append(op_str(t));
                s.append("w");
                assert(s@ =~= old_s@ + (op_name(t) + "w"@));
            },
            RiscV::Fence(IsFenceI(is_i), _, _) => {
                if is_i {
                    s.append("fence.i");
                } else {
                    s.append("fence");
                }
            },
            RiscV::EOp(EOpType::Call) => s.append("ecall"),
            RiscV::EOp(EOpType::Break) => s.append("ebreak"),
            RiscV::CsrOp(t, _, _, _) => s.append(csr_str(t)),
            RiscV::CsrOpI(t, _, _, _) => {
                s.append(csr_str(t));
                s.append("i");
                assert(s@ =~= old_s@ + (csr_name_of(t) + "i"@));
            },
        }
    }
}

/// The view of an optional CSR name.
pub open spec fn name_view(name: Option<&str>) -> Option<Seq<char>> {
    match name {
        Some(n) => Some(n@),
        None => None,
    }
}

fn push_csr(s: &mut String, c: u16, name: Option<&str>)
    ensures
        final(s)@ == old(s)@ + csr_text(c, name_view(name)),
{
    match name {
        Some(n) => s.append(n),
        None => push_unsigned(s, c as u64),
    }
}

impl RiscV {
    fn push_operands(&self, s: &mut String, csr_name: Option<&str>)
        ensures
            final(s)@ == old(s)@ + operands_of(*self, name_view(csr_name)),
    {
        let ghost old_s = s@;
        match *self {
            RiscV::Lui(rd, imm) | RiscV::Auipc(rd, imm) => {
                push_reg(s, rd.0);
                s.append(", ");
                push_unsigned(s, imm as u64);
                assert(s@ =~= old_s + (reg_text(rd.0) + ", "@ + digits(imm as nat, 10)));
            },
            RiscV::Jal(rd, off) => {
                push_reg(s, rd.0);
                s.append(", ");
                push_int(s, off as i64);
                assert(s@ =~= old_s + (reg_text(rd.0) + ", "@ + int_text(off as int)));
            },
            RiscV::Jalr(rd, base, off) | RiscV::Load(_, rd, base, off) => {
                push_reg(s, rd.0);
                s.append(", ");
                push_int(s, off as i64);
                s.append("(");
                push_reg(s, base.0);
                s.append(")");
                assert(s@ =~= old_s + (reg_text(rd.0) + ", "@ + int_text(off as int) + "("@
                    + reg_text(base.0) + ")"@));
            },
            RiscV::Store(_, base, src, off) => {
                push_reg(s, src.0);
                s.append(", ");
                push_int(s, off as i64);
                s.append("(");
                push_reg(s, base.0);
                s.append(")");
                assert(s@ =~= old_s + (reg_text(src.0) + ", "@ + int_text(off as int) + "("@
                    + reg_text(base.0) + ")"@));
            },
            RiscV::Branch(_, a, b, off) => {
                push_reg(s, a.0);
                s.append(", ");
                push_reg(s, b.0);
                s.append(", ");
                push_int(s, off as i64);
                assert(s@ =~= old_s + (reg_text(a.0) + ", "@ + reg_text(b.0) + ", "@ + int_text(
                    off as int,
                )));
            },
            RiscV::OpI(_, rd, rs1, imm) | RiscV::OpIW(_, rd, rs1, imm) => {
                push_reg(s, rd.0);
                s.append(", ");
                push_reg(s, rs1.0);
                s.append(", ");
                push_int(s, imm as i64);
                assert(s@ =~= old_s + (reg_text(rd.0) + ", "@ + reg_text(rs1.0) + ", "@ + int_text(
                    imm as int,
                )));
            },
            RiscV::Op(_, rd, rs1, rs2) | RiscV::OpW(_, rd, rs1, rs2) => {
                push_reg(s, rd.0);
                s.append(", ");
                push_reg(s, rs1.0);
                s.append(", ");
                push_reg(s, rs2.0);
                assert(s@ =~= old_s + (reg_text(rd.0) + ", "@ + reg_text(rs1.0) + ", "@ + reg_text(
                    rs2.0,
                )));
            },
            RiscV::Fence(IsFenceI(is_i), Pred(p), Succ(q)) => {
                if is_i {
                    assert(s@ =~= old_s + Seq::<char>::empty());
                } else {
                    push_unsigned(s, p as u64);
                    s.append(", ");
                    push_unsigned(s, q as u64);
                    assert(s@ =~= old_s + (digits(p as nat, 10) + ", "@ + digits(q as nat, 10)));
                }
            },
            RiscV::EOp(_) => {
                assert(s@ =~= old_s + Seq::<char>::empty());
            },
            RiscV::CsrOp(_, rd, rs1, Csr(c)) => {
                push_reg(s, rd.0);
                s.append(", ");
                push_csr(s, c, csr_name);
                s.append(", ");
                push_reg(s, rs1.0);
                assert(s@ =~= old_s + (reg_text(rd.0) + ", "@ + csr_text(c, name_view(csr_name))
                    + ", "@ + reg_text(rs1.0)));
            },
            RiscV::CsrOpI(_, rd, z, Csr(c)) => {
                push_reg(s, rd.0);
                s.append(", ");
                push_csr(s, c, csr_name);
                s.append(", ");
                push_unsigned(s, z as u64);
                assert(s@ =~= old_s + (reg_text(rd.0) + ", "@ + csr_text(c, name_view(csr_name))
                    + ", "@ + digits(z as nat, 10)));
            },
        }
    }

    /// The assembler text of the instruction, such as `addi x5, x6, -1` or
    /// `lw x5, 4(x6)`. A CSR is written as `csr_name` when one is given, else
    /// as its index in decimal.
    pub fn render(&self, csr_name: Option<&str>) -> (r: String)
        requires
            has_mnemonic(*self),
        ensures
            r@ == text_of(*self, name_view(csr_name)),
    {
        let mut s = String::new();
        self.push_mnemonic(&mut s);
        let mut ops = String::new();
        self.push_operands(&mut ops, csr_name);
        if !ops.as_str().is_empty() {
            s.append(" ");
            s.append(ops.as_str());
            assert(s@ =~= mnemonic_of(*self) + " "@ + operands_of(*self, name_view(csr_name)));
        } else {
            assert(s@ =~= mnemonic_of(*self));
        }
        s
    }
}

/// Every instruction that the structured decoder produces has a mnemonic.
pub proof fn lemma_decoded_has_mnemonic(w: u32)
    requires
        decoded(w) is Some,
    ensures
        has_mnemonic(decoded(w)->Some_0),
{
}

/// The name of a flat record's tag.
pub open spec fn opcode_name(tag: OpCode) -> Seq<char> {
    match tag {
        OpCode::invalid => "invalid"@,
        OpCode::lui => "lui"@,
        OpCode::auipc => "auipc"@,
        OpCode::jal => "jal"@,
        OpCode::jalr => "jalr"@,
        OpCode::br => "br"@,
        OpCode::load => "load"@,
        OpCode::store => "store"@,
        OpCode::iop => "iop"@,
        OpCode::op => "op"@,
        OpCode::fence => "fence"@,
        OpCode::excep => "excep"@,
        OpCode::csr => "csr"@,
    }
}

/// The text of a flat record: `tag.subtag` (the sub-tag in binary), the
/// three registers, and the immediate in binary when it is not 0.
pub open spec fn flat_text(f: FlatRiscV) -> Seq<char> {
    opcode_name(f.opcode) + "."@ + digits(f.ext_op as nat, 2) + "  "@ + reg_text(f.rd) + ", "@
        + reg_text(f.rs1) + ", "@ + reg_text(f.rs2) + if f.imm == 0 {
        Seq::empty()
    } else {
        ", 0b"@ + digits(f.imm as nat, 2)
    }
}

impl OpCode {
    /// The name of the tag.
    pub fn name(&self) -> (r: &'static str)
        ensures
            r@ == opcode_name(*self),
    {
        match *self {
            OpCode::invalid => "invalid",
            OpCode::lui => "lui",
            OpCode::auipc => "auipc",
            OpCode::jal => "jal",
            OpCode::jalr => "jalr",
            OpCode::br => "br",
            OpCode::load => "load",
            OpCode::store => "store",
            OpCode::iop => "iop",
            OpCode::op => "op",
            OpCode::fence => "fence",
            OpCode::excep => "excep",
            OpCode::csr => "csr",
        }
    }
}

impl FlatRiscV {
    /// The text of the record, such as `lui.0  x0, x0, x0, 0b1111...`.
    pub fn render(&self) -> (r: String)
        ensures
            r@ == flat_text(*self),
    {
        let mut s = String::new();
        s.append(self.opcode.name());
        s.append(".");
        let e = binary(self.ext_op as u64);
        s.append(e.as_str());
        s.append("  ");
        push_reg(&mut s, self.rd);
        s.append(", ");
        push_reg(&mut s, self.rs1);
        s.append(", ");
        push_reg(&mut s, self.rs2);
        let ghost head = s@;
        if self.imm != 0 {
            s.append(", 0b");
            let m = binary(self.imm as u64);
            s.append(m.as_str());
            assert(s@ =~= head + (", 0b"@ + digits(self.imm as nat, 2)));
        } else {
            assert(s@ =~= head + Seq::<char>::empty());
        }
        s
    }
}

} // verus!
