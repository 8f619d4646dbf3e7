//! The flat decoder: an ordered table of bit-pattern templates, each with a
//! format, a tag and a sub-tag, read by the generic matcher. The first entry
//! that matches wins.
use vstd::prelude::*;

use crate::bits::field;
use crate::flat::{
    record, record_of, FlatRiscV, Format, OpCode, ALU_ADD, ALU_ADDW, ALU_AND, ALU_OR, ALU_SLL,
    ALU_SLLW, ALU_SLT, ALU_SLTU, ALU_SRA, ALU_SRAW, ALU_SRL, ALU_SRLW, ALU_SUB, ALU_SUBW, ALU_XOR,
    BR_EQ, BR_GE, BR_GEU, BR_LT, BR_LTU, BR_NE, CSR_RC, CSR_RCI, CSR_RS, CSR_RSI, CSR_RW, CSR_RWI,
    EXCEP_CALL, EXCEP_RET, FENCE_I, LS_B, LS_BU, LS_D, LS_H, LS_HU, LS_W, LS_WU,
};
use crate::format::{funct3_of, funct7_of, opcode_of};
use crate::pattern::{
    bitpat, is_template, lemma_template_word, lemma_upto, le_word, mask_upto, stripped,
    template_matches, template_upto, value_upto, width_upto,
};

verus! {

/// The number of entries in the template table.
pub const TABLE_LEN: usize = 59;

/// What a template fixes: the major opcode, and possibly `funct3` with
/// `funct7`, the upper six immediate bits (`w[31:26]`) or the whole 12-bit
/// immediate (`w[31:20]`).
pub enum Key {
    Op(u32),
    OpF3(u32, u32),
    OpF3F7(u32, u32, u32),
    OpF3F6(u32, u32, u32),
    OpF3Imm(u32, u32, u32),
}

pub open spec fn key_holds(k: Key, w: u32) -> bool {
    match k {
        Key::Op(o) => opcode_of(w) == o,
        Key::OpF3(o, f) => opcode_of(w) == o && funct3_of(w) == f,
        Key::OpF3F7(o, f, g) => opcode_of(w) == o && funct3_of(w) == f && funct7_of(w) == g,
        Key::OpF3F6(o, f, g) => opcode_of(w) == o && funct3_of(w) == f && field(w, 31, 26) == g,
        Key::OpF3Imm(o, f, g) => opcode_of(w) == o && funct3_of(w) == f && field(w, 31, 20) == g,
    }
}

pub open spec fn key_mask(k: Key) -> nat {
    match k {
        Key::Op(_) => 0x7f,
        Key::OpF3(_, _) => 0x707f,
        Key::OpF3F7(_, _, _) => 0xfe00_707f,
        Key::OpF3F6(_, _, _) => 0xfc00_707f,
        Key::OpF3Imm(_, _, _) => 0xfff0_707f,
    }
}

pub open spec fn key_value(k: Key) -> nat {
    match k {
        Key::Op(o) => o as nat,
        Key::OpF3(o, f) => (o + f * 0x1000) as nat,
        Key::OpF3F7(o, f, g) => (o + f * 0x1000 + g * 0x200_0000) as nat,
        Key::OpF3F6(o, f, g) => (o + f * 0x1000 + g * 0x400_0000) as nat,
        Key::OpF3Imm(o, f, g) => (o + f * 0x1000 + g * 0x10_0000) as nat,
    }
}

pub open spec fn key_in_range(k: Key) -> bool {
    match k {
        Key::Op(o) => o < 128,
        Key::OpF3(o, f) => o < 128 && f < 8,
        Key::OpF3F7(o, f, g) => o < 128 && f < 8 && g < 128,
        Key::OpF3F6(o, f, g) => o < 128 && f < 8 && g < 64,
        Key::OpF3Imm(o, f, g) => o < 128 && f < 8 && g < 4096,
    }
}

proof fn lemma_key_bits(w: u32, o: u32, f: u32, g: u32)
    by (bit_vector)
    requires
        o < 128,
        f < 8,
    ensures
        ((w & 0x7fu32) == o) == (field(w, 6, 0) == o),
        ((w & 0x707fu32) == o + f * 0x1000) == (field(w, 6, 0) == o && field(w, 14, 12) == f),
        g < 128 ==> ((w & 0xfe00_707fu32) == o + f * 0x1000 + g * 0x200_0000) == (field(w, 6, 0)
            == o && field(w, 14, 12) == f && field(w, 31, 25) == g),
        g < 64 ==> ((w & 0xfc00_707fu32) == o + f * 0x1000 + g * 0x400_0000) == (field(w, 6, 0)
            == o && field(w, 14, 12) == f && field(w, 31, 26) == g),
        g < 4096 ==> ((w & 0xfff0_707fu32) == o + f * 0x1000 + g * 0x10_0000) == (field(w, 6, 0)
            == o && field(w, 14, 12) == f && field(w, 31, 20) == g),
{
}

/// A key holds of a word exactly when the word has the key's value under its mask.
proof fn lemma_key_mask(k: Key, w: u32)
    requires
        key_in_range(k),
    ensures
        key_mask(k) < 0x1_0000_0000,
        key_value(k) < 0x1_0000_0000,
        key_holds(k, w) == ((w & (key_mask(k) as u32)) == (key_value(k) as u32)),
{
    match k {
        Key::Op(o) => lemma_key_bits(w, o, 0, 0),
        Key::OpF3(o, f) => lemma_key_bits(w, o, f, 0),
        Key::OpF3F7(o, f, g) => lemma_key_bits(w, o, f, g),
        Key::OpF3F6(o, f, g) => lemma_key_bits(w, o, f, g),
        Key::OpF3Imm(o, f, g) => lemma_key_bits(w, o, f, g),
    }
}

/// One row of the table, as the contracts see it.
pub struct Row {
    pub key: Key,
    pub format: Format,
    pub opcode: OpCode,
    pub ext_op: u16,
}

pub open spec fn row(key: Key, format: Format, opcode: OpCode, ext_op: u16) -> Row {
    Row { key, format, opcode, ext_op }
}

/// The meaning of entry `i` of the template table.
pub open spec fn table(i: usize) -> Row {
    match i {
        0 => row(Key::Op(0b0110111), Format::U, OpCode::lui, 0),  // lui
        1 => row(Key::Op(0b0010111), Format::U, OpCode::auipc, 0),  // auipc
        2 => row(Key::Op(0b1101111), Format::J, OpCode::jal, 0),  // jal
        3 => row(Key::OpF3(0b1100111, 0b000), Format::I, OpCode::jalr, 0),  // jalr
        4 => row(Key::OpF3(0b1100011, 0b000), Format::B, OpCode::br, BR_EQ),  // beq
        5 => row(Key::OpF3(0b1100011, 0b001), Format::B, OpCode::br, BR_NE),  // bne
        6 => row(Key::OpF3(0b1100011, 0b100), Format::B, OpCode::br, BR_LT),  // blt
        7 => row(Key::OpF3(0b1100011, 0b101), Format::B, OpCode::br, BR_GE),  // bge
        8 => row(Key::OpF3(0b1100011, 0b110), Format::B, OpCode::br, BR_LTU),  // bltu
        9 => row(Key::OpF3(0b1100011, 0b111), Format::B, OpCode::br, BR_GEU),  // bgeu
        10 => row(Key::OpF3(0b0000011, 0b000), Format::I, OpCode::load, LS_B),  // lb
        11 => row(Key::OpF3(0b0000011, 0b001), Format::I, OpCode::load, LS_H),  // lh
        12 => row(Key::OpF3(0b0000011, 0b010), Format::I, OpCode::load, LS_W),  // lw
        13 => row(Key::OpF3(0b0000011, 0b011), Format::I, OpCode::load, LS_D),  // ld
        14 => row(Key::OpF3(0b0000011, 0b100), Format::I, OpCode::load, LS_BU),  // lbu
        15 => row(Key::OpF3(0b0000011, 0b101), Format::I, OpCode::load, LS_HU),  // lhu
        16 => row(Key::OpF3(0b0000011, 0b110), Format::I, OpCode::load, LS_WU),  // lwu
        17 => row(Key::OpF3(0b0100011, 0b000), Format::S, OpCode::store, LS_B),  // sb
        18 => row(Key::OpF3(0b0100011, 0b001), Format::S, OpCode::store, LS_H),  // sh
        19 => row(Key::OpF3(0b0100011, 0b010), Format::S, OpCode::store, LS_W),  // sw
        20 => row(Key::OpF3(0b0100011, 0b011), Format::S, OpCode::store, LS_D),  // sd
        21 => row(Key::OpF3(0b0010011, 0b000), Format::I, OpCode::iop, ALU_ADD),  // addi
        22 => row(Key::OpF3(0b0010011, 0b010), Format::I, OpCode::iop, ALU_SLT),  // slti
        23 => row(Key::OpF3(0b0010011, 0b011), Format::I, OpCode::iop, ALU_SLTU),  // sltiu
        24 => row(Key::OpF3(0b0010011, 0b100), Format::I, OpCode::iop, ALU_XOR),  // xori
        25 => row(Key::OpF3(0b0010011, 0b110), Format::I, OpCode::iop, ALU_OR),  // ori
        26 => row(Key::OpF3(0b0010011, 0b111), Format::I, OpCode::iop, ALU_AND),  // andi
        27 => row(Key::OpF3F6(0b0010011, 0b001, 0b000000), Format::I, OpCode::iop, ALU_SLL),  // slli
        28 => row(Key::OpF3F6(0b0010011, 0b101, 0b000000), Format::I, OpCode::iop, ALU_SRL),  // srli
        29 => row(Key::OpF3F6(0b0010011, 0b101, 0b010000), Format::I, OpCode::iop, ALU_SRA),  // srai
        30 => row(Key::OpF3(0b0011011, 0b000), Format::I, OpCode::iop, ALU_ADDW),  // addiw
        31 => row(Key::OpF3F7(0b0011011, 0b001, 0b0000000), Format::I, OpCode::iop, ALU_SLLW),  // slliw
        32 => row(Key::OpF3F7(0b0011011, 0b101, 0b0000000), Format::I, OpCode::iop, ALU_SRLW),  // srliw
        33 => row(Key::OpF3F7(0b0011011, 0b101, 0b0100000), Format::I, OpCode::iop, ALU_SRAW),  // sraiw
        34 => row(Key::OpF3F7(0b0110011, 0b000, 0b0000000), Format::R, OpCode::op, ALU_ADD),  // add
        35 => row(Key::OpF3F7(0b0110011, 0b000, 0b0100000), Format::R, OpCode::op, ALU_SUB),  // sub
        36 => row(Key::OpF3(0b0110011, 0b001), Format::R, OpCode::op, ALU_SLL),  // sll
        37 => row(Key::OpF3(0b0110011, 0b010), Format::R, OpCode::op, ALU_SLT),  // slt
        38 => row(Key::OpF3(0b0110011, 0b011), Format::R, OpCode::op, ALU_SLTU),  // sltu
        39 => row(Key::OpF3(0b0110011, 0b100), Format::R, OpCode::op, ALU_XOR),  // xor
        40 => row(Key::OpF3F7(0b0110011, 0b101, 0b0000000), Format::R, OpCode::op, ALU_SRL),  // srl
        41 => row(Key::OpF3F7(0b0110011, 0b101, 0b0100000), Format::R, OpCode::op, ALU_SRA),  // sra
        42 => row(Key::OpF3(0b0110011, 0b110), Format::R, OpCode::op, ALU_OR),  // or
        43 => row(Key::OpF3(0b0110011, 0b111), Format::R, OpCode::op, ALU_AND),  // and
        44 => row(Key::OpF3F7(0b0111011, 0b000, 0b0000000), Format::R, OpCode::op, ALU_ADDW),  // addw
        45 => row(Key::OpF3F7(0b0111011, 0b000, 0b0100000), Format::R, OpCode::op, ALU_SUBW),  // subw
        46 => row(Key::OpF3(0b0111011, 0b001), Format::R, OpCode::op, ALU_SLLW),  // sllw
        47 => row(Key::OpF3F7(0b0111011, 0b101, 0b0000000), Format::R, OpCode::op, ALU_SRLW),  // srlw
        48 => row(Key::OpF3F7(0b0111011, 0b101, 0b0100000), Format::R, OpCode::op, ALU_SRAW),  // sraw
        49 => row(Key::OpF3(0b0001111, 0b000), Format::I, OpCode::fence, 0),  // fence
        50 => row(Key::OpF3(0b0001111, 0b001), Format::I, OpCode::fence, FENCE_I),  // fence.i
        51 => row(Key::OpF3Imm(0b1110011, 0b000, 0), Format::I, OpCode::excep, EXCEP_CALL),  // ecall
        52 => row(Key::OpF3Imm(0b1110011, 0b000, 1), Format::I, OpCode::excep, EXCEP_RET),  // ebreak
        53 => row(Key::OpF3(0b1110011, 0b001), Format::I, OpCode::csr, CSR_RW),  // csrrw
        54 => row(Key::OpF3(0b1110011, 0b010), Format::I, OpCode::csr, CSR_RS),  // csrrs
        55 => row(Key::OpF3(0b1110011, 0b011), Format::I, OpCode::csr, CSR_RC),  // csrrc
        56 => row(Key::OpF3(0b1110011, 0b101), Format::I, OpCode::csr, CSR_RWI),  // csrrwi
        57 => row(Key::OpF3(0b1110011, 0b110), Format::I, OpCode::csr, CSR_RSI),  // csrrsi
        58 => row(Key::OpF3(0b1110011, 0b111), Format::I, OpCode::csr, CSR_RCI),  // csrrci
        _ => row(Key::Op(0), Format::R, OpCode::invalid, 0),
    }
}

/// The index of the first entry at or after `i` whose key holds of `w`.
pub open spec fn first_match(w: u32, i: usize) -> Option<usize>
    decreases TABLE_LEN - i,
{
    if i >= TABLE_LEN {
        None
    } else if key_holds(table(i).key, w) {
        Some(i)
    } else {
        first_match(w, (i + 1) as usize)
    }
}

/// The flat decoding of the word `w`: the record built by the first entry
/// whose template matches.
pub open spec fn flat_decoded(w: u32) -> Option<FlatRiscV> {
    match first_match(w, 0) {
        Some(i) => Some(
            record_of(table(i).format, table(i).opcode, table(i).ext_op, w),
        ),
        None => None,
    }
}

/// An entry of the executable table.
pub struct PatternEntry {
    pub pattern: &'static [u8],
    pub format: Format,
    pub opcode: OpCode,
    pub ext_op: u16,
}

/// The template `p` denotes the key `k`: it is well formed, 32 bits wide,
/// and fixes exactly the key's bits to the key's values.
pub open spec fn denotes(p: Seq<u8>, k: Key) -> bool {
    &&& template_upto(p, p.len() as int)
    &&& width_upto(p, p.len() as int) == 32
    &&& mask_upto(p, p.len() as int) == key_mask(k)
    &&& value_upto(p, p.len() as int) == key_value(k)
}

/// The bytes of an ASCII string.
pub open spec fn ascii_bytes(s: Seq<char>) -> Seq<u8> {
    Seq::new(s.len(), |i: int| s[i] as u8)
}

fn entry(p: &'static str, format: Format, opcode: OpCode, ext_op: u16) -> (r: PatternEntry)
    requires
        vstd::string::is_ascii(p),
    ensures
        r.pattern@ == ascii_bytes(p@),
        r.format == format,
        r.opcode == opcode,
        r.ext_op == ext_op,
{
    proof {
        vstd::string::is_ascii_spec_bytes(p);
    }
    PatternEntry { pattern: p.as_bytes(), format, opcode, ext_op }
}

proof fn lemma_template_lui()
    ensures
        vstd::string::is_ascii("???????_?????_?????_???_?????_0110111"),
        denotes(ascii_bytes("???????_?????_?????_???_?????_0110111"@), Key::Op(0b0110111)),
{
    reveal_strlit("???????_?????_?????_???_?????_0110111");
    reveal_with_fuel(template_upto, 40);
    reveal_with_fuel(width_upto, 40);
    reveal_with_fuel(mask_upto, 40);
    reveal_with_fuel(value_upto, 40);
}

proof fn lemma_template_auipc()
    ensures
        vstd::string::is_ascii("???????_?????_?????_???_?????_0010111"),
        denotes(ascii_bytes("???????_?????_?????_???_?????_0010111"@), Key::Op(0b0010111)),
{
    reveal_strlit("???????_?????_?????_???_?????_0010111");
    reveal_with_fuel(template_upto, 40);
    reveal_with_fuel(width_upto, 40);
    reveal_with_fuel(mask_upto, 40);
    reveal_with_fuel(value_upto, 40);
}

proof fn lemma_template_jal()
    ensures
        vstd::string::is_ascii("???????_?????_?????_???_?????_1101111"),
        denotes(ascii_bytes("???????_?????_?????_???_?????_1101111"@), Key::Op(0b1101111)),
{
    reveal_strlit("???????_?????_?????_???_?????_1101111");
    reveal_with_fuel(template_upto, 40);
    reveal_with_fuel(width_upto, 40);
    reveal_with_fuel(mask_upto, 40);
    reveal_with_fuel(value_upto, 40);
}

proof fn lemma_template_jalr()
    ensures
        vstd::string::is_ascii("???????_?????_?????_000_?????_1100111"),
        denotes(ascii_bytes("???????_?????_?????_000_?????_1100111"@), Key::OpF3(0b1100111, 0b000)),
{
    reveal_strlit("???????_?????_?????_000_?????_1100111");
    reveal_with_fuel(template_upto, 40);
    reveal_with_fuel(width_upto, 40);
    reveal_with_fuel(mask_upto, 40);
    reveal_with_fuel(value_upto, 40);
}

proof fn lemma_template_beq()
    ensures
        vstd::string::is_ascii("???????_?????_?????_000_?????_1100011"),
        denotes(ascii_bytes("???????_?????_?????_000_?????_1100011"@), Key::OpF3(0b1100011, 0b000)),
{
    reveal_strlit("???????_?????_?????_000_?????_1100011");
    reveal_with_fuel(template_upto, 40);
    reveal_with_fuel(width_upto, 40);
    reveal_with_fuel(mask_upto, 40);
    reveal_with_fuel(value_upto, 40);
}

proof fn lemma_template_bne()
    ensures
        vstd::string::is_ascii("???????_?????_?????_001_?????_1100011"),
        denotes(ascii_bytes("???????_?????_?????_001_?????_1100011"@), Key::OpF3(0b1100011, 0b001)),
{
    reveal_strlit("???????_?????_?????_001_?????_1100011");
    reveal_with_fuel(template_upto, 40);
    reveal_with_fuel(width_upto, 40);
    reveal_with_fuel(mask_upto, 40);
    reveal_with_fuel(value_upto, 40);
}

proof fn lemma_template_blt()
    ensures
        vstd::string::is_ascii("???????_?????_?????_100_?????_1100011"),
        denotes(ascii_bytes("???????_?????_?????_100_?????_1100011"@), Key::OpF3(0b1100011, 0b100)),
{
    reveal_strlit("???????_?????_?????_100_?????_1100011");
    reveal_with_fuel(template_upto, 40);
    reveal_with_fuel(width_upto, 40);
    reveal_with_fuel(mask_upto, 40);
    reveal_with_fuel(value_upto, 40);
}

proof fn lemma_template_bge()
    ensures
        vstd::string::is_ascii("???????_?????_?????_101_?????_1100011"),
        denotes(ascii_bytes("???????_?????_?????_101_?????_1100011"@), Key::OpF3(0b1100011, 0b101)),
{
    reveal_strlit("???????_?????_?????_101_?????_1100011");
    reveal_with_fuel(template_upto, 40);
    reveal_with_fuel(width_upto, 40);
    reveal_with_fuel(mask_upto, 40);
    reveal_with_fuel(value_upto, 40);
}

proof fn lemma_template_bltu()
    ensures
        vstd::string::is_ascii("???????_?????_?????_110_?????_1100011"),
        denotes(ascii_bytes("???????_?????_?????_110_?????_1100011"@), Key::OpF3(0b1100011, 0b110)),
{
    reveal_strlit("???????_?????_?????_110_?????_1100011");
    reveal_with_fuel(template_upto, 40);
    reveal_with_fuel(width_upto, 40);
    reveal_with_fuel(mask_upto, 40);
    reveal_with_fuel(value_upto, 40);
}

proof fn lemma_template_bgeu()
    ensures
        vstd::string::is_ascii("???????_?????_?????_111_?????_1100011"),
        denotes(ascii_bytes("???????_?????_?????_111_?????_1100011"@), Key::OpF3(0b1100011, 0b111)),
{
    reveal_strlit("???????_?????_?????_111_?????_1100011");
    reveal_with_fuel(template_upto, 40);
    reveal_with_fuel(width_upto, 40);
    reveal_with_fuel(mask_upto, 40);
    reveal_with_fuel(value_upto, 40);
}

proof fn lemma_template_lb()
    ensures
        vstd::string::is_ascii("???????_?????_?????_000_?????_0000011"),
        denotes(ascii_bytes("???????_?????_?????_000_?????_0000011"@), Key::OpF3(0b0000011, 0b000)),
{
    reveal_strlit("???????_?????_?????_000_?????_0000011");
    reveal_with_fuel(template_upto, 40);
    reveal_with_fuel(width_upto, 40);
    reveal_with_fuel(mask_upto, 40);
    reveal_with_fuel(value_upto, 40);
}

proof fn lemma_template_lh()
    ensures
        vstd::string::is_ascii("???????_?????_?????_001_?????_0000011"),
        denotes(ascii_bytes("???????_?????_?????_001_?????_0000011"@), Key::OpF3(0b0000011, 0b001)),
{
    reveal_strlit("???????_?????_?????_001_?????_0000011");
    reveal_with_fuel(template_upto, 40);
    reveal_with_fuel(width_upto, 40);
    reveal_with_fuel(mask_upto, 40);
    reveal_with_fuel(value_upto, 40);
}

proof fn lemma_template_lw()
    ensures
        vstd::string::is_ascii("???????_?????_?????_010_?????_0000011"),
        denotes(ascii_bytes("???????_?????_?????_010_?????_0000011"@), Key::OpF3(0b0000011, 0b010)),
{
    reveal_strlit("???????_?????_?????_010_?????_0000011");
    reveal_with_fuel(template_upto, 40);
    reveal_with_fuel(width_upto, 40);
    reveal_with_fuel(mask_upto, 40);
    reveal_with_fuel(value_upto, 40);
}

proof fn lemma_template_ld()
    ensures
        vstd::string::is_ascii("???????_?????_?????_011_?????_0000011"),
        denotes(ascii_bytes("???????_?????_?????_011_?????_0000011"@), Key::OpF3(0b0000011, 0b011)),
{
    reveal_strlit("???????_?????_?????_011_?????_0000011");
    reveal_with_fuel(template_upto, 40);
    reveal_with_fuel(width_upto, 40);
    reveal_with_fuel(mask_upto, 40);
    reveal_with_fuel(value_upto, 40);
}

proof fn lemma_template_lbu()
    ensures
        vstd::string::is_ascii("???????_?????_?????_100_?????_0000011"),
        denotes(ascii_bytes("???????_?????_?????_100_?????_0000011"@), Key::OpF3(0b0000011, 0b100)),
{
    reveal_strlit("???????_?????_?????_100_?????_0000011");
    reveal_with_fuel(template_upto, 40);
    reveal_with_fuel(width_upto, 40);
    reveal_with_fuel(mask_upto, 40);
    reveal_with_fuel(value_upto, 40);
}

proof fn lemma_template_lhu()
    ensures
        vstd::string::is_ascii("???????_?????_?????_101_?????_0000011"),
        denotes(ascii_bytes("???????_?????_?????_101_?????_0000011"@), Key::OpF3(0b0000011, 0b101)),
{
    reveal_strlit("???????_?????_?????_101_?????_0000011");
    reveal_with_fuel(template_upto, 40);
    reveal_with_fuel(width_upto, 40);
    reveal_with_fuel(mask_upto, 40);
    reveal_with_fuel(value_upto, 40);
}

proof fn lemma_template_lwu()
    ensures
        vstd::string::is_ascii("???????_?????_?????_110_?????_0000011"),
        denotes(ascii_bytes("???????_?????_?????_110_?????_0000011"@), Key::OpF3(0b0000011, 0b110)),
{
    reveal_strlit("???????_?????_?????_110_?????_0000011");
    reveal_with_fuel(template_upto, 40);
    reveal_with_fuel(width_upto, 40);
    reveal_with_fuel(mask_upto, 40);
    reveal_with_fuel(value_upto, 40);
}

proof fn lemma_template_sb()
    ensures
        vstd::string::is_ascii("???????_?????_?????_000_?????_0100011"),
        denotes(ascii_bytes("???????_?????_?????_000_?????_0100011"@), Key::OpF3(0b0100011, 0b000)),
{
    reveal_strlit("???????_?????_?????_000_?????_0100011");
    reveal_with_fuel(template_upto, 40);
    reveal_with_fuel(width_upto, 40);
    reveal_with_fuel(mask_upto, 40);
    reveal_with_fuel(value_upto, 40);
}

proof fn lemma_template_sh()
    ensures
        vstd::string::is_ascii("???????_?????_?????_001_?????_0100011"),
        denotes(ascii_bytes("???????_?????_?????_001_?????_0100011"@), Key::OpF3(0b0100011, 0b001)),
{
    reveal_strlit("???????_?????_?????_001_?????_0100011");
    reveal_with_fuel(template_upto, 40);
    reveal_with_fuel(width_upto, 40);
    reveal_with_fuel(mask_upto, 40);
    reveal_with_fuel(value_upto, 40);
}

proof fn lemma_template_sw()
    ensures
        vstd::string::is_ascii("???????_?????_?????_010_?????_0100011"),
        denotes(ascii_bytes("???????_?????_?????_010_?????_0100011"@), Key::OpF3(0b0100011, 0b010)),
{
    reveal_strlit("???????_?????_?????_010_?????_0100011");
    reveal_with_fuel(template_upto, 40);
    reveal_with_fuel(width_upto, 40);
    reveal_with_fuel(mask_upto, 40);
    reveal_with_fuel(value_upto, 40);
}

proof fn lemma_template_sd()
    ensures
        vstd::string::is_ascii("???????_?????_?????_011_?????_0100011"),
        denotes(ascii_bytes("???????_?????_?????_011_?????_0100011"@), Key::OpF3(0b0100011, 0b011)),
{
    reveal_strlit("???????_?????_?????_011_?????_0100011");
    reveal_with_fuel(template_upto, 40);
    reveal_with_fuel(width_upto, 40);
    reveal_with_fuel(mask_upto, 40);
    reveal_with_fuel(value_upto, 40);
}

proof fn lemma_template_addi()
    ensures
        vstd::string::is_ascii("???????_?????_?????_000_?????_0010011"),
        denotes(ascii_bytes("???????_?????_?????_000_?????_0010011"@), Key::OpF3(0b0010011, 0b000)),
{
    reveal_strlit("???????_?????_?????_000_?????_0010011");
    reveal_with_fuel(template_upto, 40);
    reveal_with_fuel(width_upto, 40);
    reveal_with_fuel(mask_upto, 40);
    reveal_with_fuel(value_upto, 40);
}

proof fn lemma_template_slti()
    ensures
        vstd::string::is_ascii("???????_?????_?????_010_?????_0010011"),
        denotes(ascii_bytes("???????_?????_?????_010_?????_0010011"@), Key::OpF3(0b0010011, 0b010)),
{
    reveal_strlit("???????_?????_?????_010_?????_0010011");
    reveal_with_fuel(template_upto, 40);
    reveal_with_fuel(width_upto, 40);
    reveal_with_fuel(mask_upto, 40);
    reveal_with_fuel(value_upto, 40);
}

proof fn lemma_template_sltiu()
    ensures
        vstd::string::is_ascii("???????_?????_?????_011_?????_0010011"),
        denotes(ascii_bytes("???????_?????_?????_011_?????_0010011"@), Key::OpF3(0b0010011, 0b011)),
{
    reveal_strlit("???????_?????_?????_011_?????_0010011");
    reveal_with_fuel(template_upto, 40);
    reveal_with_fuel(width_upto, 40);
    reveal_with_fuel(mask_upto, 40);
    reveal_with_fuel(value_upto, 40);
}

proof fn lemma_template_xori()
    ensures
        vstd::string::is_ascii("???????_?????_?????_100_?????_0010011"),
        denotes(ascii_bytes("???????_?????_?????_100_?????_0010011"@), Key::OpF3(0b0010011, 0b100)),
{
    reveal_strlit("???????_?????_?????_100_?????_0010011");
    reveal_with_fuel(template_upto, 40);
    reveal_with_fuel(width_upto, 40);
    reveal_with_fuel(mask_upto, 40);
    reveal_with_fuel(value_upto, 40);
}

proof fn lemma_template_ori()
    ensures
        vstd::string::is_ascii("???????_?????_?????_110_?????_0010011"),
        denotes(ascii_bytes("???????_?????_?????_110_?????_0010011"@), Key::OpF3(0b0010011, 0b110)),
{
    reveal_strlit("???????_?????_?????_110_?????_0010011");
    reveal_with_fuel(template_upto, 40);
    reveal_with_fuel(width_upto, 40);
    reveal_with_fuel(mask_upto, 40);
    reveal_with_fuel(value_upto, 40);
}

proof fn lemma_template_andi()
    ensures
        vstd::string::is_ascii("???????_?????_?????_111_?????_0010011"),
        denotes(ascii_bytes("???????_?????_?????_111_?????_0010011"@), Key::OpF3(0b0010011, 0b111)),
{
    reveal_strlit("???????_?????_?????_111_?????_0010011");
    reveal_with_fuel(template_upto, 40);
    reveal_with_fuel(width_upto, 40);
    reveal_with_fuel(mask_upto, 40);
    reveal_with_fuel(value_upto, 40);
}

proof fn lemma_template_slli()
    ensures
        vstd::string::is_ascii("000000?_?????_?????_001_?????_0010011"),
        denotes(ascii_bytes("000000?_?????_?????_001_?????_0010011"@), Key::OpF3F6(0b0010011, 0b001, 0b000000)),
{
    reveal_strlit("000000?_?????_?????_001_?????_0010011");
    reveal_with_fuel(template_upto, 40);
    reveal_with_fuel(width_upto, 40);
    reveal_with_fuel(mask_upto, 40);
    reveal_with_fuel(value_upto, 40);
}

proof fn lemma_template_srli()
    ensures
        vstd::string::is_ascii("000000?_?????_?????_101_?????_0010011"),
        denotes(ascii_bytes("000000?_?????_?????_101_?????_0010011"@), Key::OpF3F6(0b0010011, 0b101, 0b000000)),
{
    reveal_strlit("000000?_?????_?????_101_?????_0010011");
    reveal_with_fuel(template_upto, 40);
    reveal_with_fuel(width_upto, 40);
    reveal_with_fuel(mask_upto, 40);
    reveal_with_fuel(value_upto, 40);
}

proof fn lemma_template_srai()
    ensures
        vstd::string::is_ascii("010000?_?????_?????_101_?????_0010011"),
        denotes(ascii_bytes("010000?_?????_?????_101_?????_0010011"@), Key::OpF3F6(0b0010011, 0b101, 0b010000)),
{
    reveal_strlit("010000?_?????_?????_101_?????_0010011");
    reveal_with_fuel(template_upto, 40);
    reveal_with_fuel(width_upto, 40);
    reveal_with_fuel(mask_upto, 40);
    reveal_with_fuel(value_upto, 40);
}

proof fn lemma_template_addiw()
    ensures
        vstd::string::is_ascii("???????_?????_?????_000_?????_0011011"),
        denotes(ascii_bytes("???????_?????_?????_000_?????_0011011"@), Key::OpF3(0b0011011, 0b000)),
{
    reveal_strlit("???????_?????_?????_000_?????_0011011");
    reveal_with_fuel(template_upto, 40);
    reveal_with_fuel(width_upto, 40);
    reveal_with_fuel(mask_upto, 40);
    reveal_with_fuel(value_upto, 40);
}

proof fn lemma_template_slliw()
    ensures
        vstd::string::is_ascii("0000000_?????_?????_001_?????_0011011"),
        denotes(ascii_bytes("0000000_?????_?????_001_?????_0011011"@), Key::OpF3F7(0b0011011, 0b001, 0b0000000)),
{
    reveal_strlit("0000000_?????_?????_001_?????_0011011");
    reveal_with_fuel(template_upto, 40);
    reveal_with_fuel(width_upto, 40);
    reveal_with_fuel(mask_upto, 40);
    reveal_with_fuel(value_upto, 40);
}

proof fn lemma_template_srliw()
    ensures
        vstd::string::is_ascii("0000000_?????_?????_101_?????_0011011"),
        denotes(ascii_bytes("0000000_?????_?????_101_?????_0011011"@), Key::OpF3F7(0b0011011, 0b101, 0b0000000)),
{
    reveal_strlit("0000000_?????_?????_101_?????_0011011");
    reveal_with_fuel(template_upto, 40);
    reveal_with_fuel(width_upto, 40);
    reveal_with_fuel(mask_upto, 40);
    reveal_with_fuel(value_upto, 40);
}

proof fn lemma_template_sraiw()
    ensures
        vstd::string::is_ascii("0100000_?????_?????_101_?????_0011011"),
        denotes(ascii_bytes("0100000_?????_?????_101_?????_0011011"@), Key::OpF3F7(0b0011011, 0b101, 0b0100000)),
{
    reveal_strlit("0100000_?????_?????_101_?????_0011011");
    reveal_with_fuel(template_upto, 40);
    reveal_with_fuel(width_upto, 40);
    reveal_with_fuel(mask_upto, 40);
    reveal_with_fuel(value_upto, 40);
}

proof fn lemma_template_add()
    ensures
        vstd::string::is_ascii("0000000_?????_?????_000_?????_0110011"),
        denotes(ascii_bytes("0000000_?????_?????_000_?????_0110011"@), Key::OpF3F7(0b0110011, 0b000, 0b0000000)),
{
    reveal_strlit("0000000_?????_?????_000_?????_0110011");
    reveal_with_fuel(template_upto, 40);
    reveal_with_fuel(width_upto, 40);
    reveal_with_fuel(mask_upto, 40);
    reveal_with_fuel(value_upto, 40);
}

proof fn lemma_template_sub()
    ensures
        vstd::string::is_ascii("0100000_?????_?????_000_?????_0110011"),
        denotes(ascii_bytes("0100000_?????_?????_000_?????_0110011"@), Key::OpF3F7(0b0110011, 0b000, 0b0100000)),
{
    reveal_strlit("0100000_?????_?????_000_?????_0110011");
    reveal_with_fuel(template_upto, 40);
    reveal_with_fuel(width_upto, 40);
    reveal_with_fuel(mask_upto, 40);
    reveal_with_fuel(value_upto, 40);
}

proof fn lemma_template_sll()
    ensures
        vstd::string::is_ascii("???????_?????_?????_001_?????_0110011"),
        denotes(ascii_bytes("???????_?????_?????_001_?????_0110011"@), Key::OpF3(0b0110011, 0b001)),
{
    reveal_strlit("???????_?????_?????_001_?????_0110011");
    reveal_with_fuel(template_upto, 40);
    reveal_with_fuel(width_upto, 40);
    reveal_with_fuel(mask_upto, 40);
    reveal_with_fuel(value_upto, 40);
}

proof fn lemma_template_slt()
    ensures
        vstd::string::is_ascii("???????_?????_?????_010_?????_0110011"),
        denotes(ascii_bytes("???????_?????_?????_010_?????_0110011"@), Key::OpF3(0b0110011, 0b010)),
{
    reveal_strlit("???????_?????_?????_010_?????_0110011");
    reveal_with_fuel(template_upto, 40);
    reveal_with_fuel(width_upto, 40);
    reveal_with_fuel(mask_upto, 40);
    reveal_with_fuel(value_upto, 40);
}

proof fn lemma_template_sltu()
    ensures
        vstd::string::is_ascii("???????_?????_?????_011_?????_0110011"),
        denotes(ascii_bytes("???????_?????_?????_011_?????_0110011"@), Key::OpF3(0b0110011, 0b011)),
{
    reveal_strlit("???????_?????_?????_011_?????_0110011");
    reveal_with_fuel(template_upto, 40);
    reveal_with_fuel(width_upto, 40);
    reveal_with_fuel(mask_upto, 40);
    reveal_with_fuel(value_upto, 40);
}

proof fn lemma_template_xor()
    ensures
        vstd::string::is_ascii("???????_?????_?????_100_?????_0110011"),
        denotes(ascii_bytes("???????_?????_?????_100_?????_0110011"@), Key::OpF3(0b0110011, 0b100)),
{
    reveal_strlit("???????_?????_?????_100_?????_0110011");
    reveal_with_fuel(template_upto, 40);
    reveal_with_fuel(width_upto, 40);
    reveal_with_fuel(mask_upto, 40);
    reveal_with_fuel(value_upto, 40);
}

proof fn lemma_template_srl()
    ensures
        vstd::string::is_ascii("0000000_?????_?????_101_?????_0110011"),
        denotes(ascii_bytes("0000000_?????_?????_101_?????_0110011"@), Key::OpF3F7(0b0110011, 0b101, 0b0000000)),
{
    reveal_strlit("0000000_?????_?????_101_?????_0110011");
    reveal_with_fuel(template_upto, 40);
    reveal_with_fuel(width_upto, 40);
    reveal_with_fuel(mask_upto, 40);
    reveal_with_fuel(value_upto, 40);
}

proof fn lemma_template_sra()
    ensures
        vstd::string::is_ascii("0100000_?????_?????_101_?????_0110011"),
        denotes(ascii_bytes("0100000_?????_?????_101_?????_0110011"@), Key::OpF3F7(0b0110011, 0b101, 0b0100000)),
{
    reveal_strlit("0100000_?????_?????_101_?????_0110011");
    reveal_with_fuel(template_upto, 40);
    reveal_with_fuel(width_upto, 40);
    reveal_with_fuel(mask_upto, 40);
    reveal_with_fuel(value_upto, 40);
}

proof fn lemma_template_or()
    ensures
        vstd::string::is_ascii("???????_?????_?????_110_?????_0110011"),
        denotes(ascii_bytes("???????_?????_?????_110_?????_0110011"@), Key::OpF3(0b0110011, 0b110)),
{
    reveal_strlit("???????_?????_?????_110_?????_0110011");
    reveal_with_fuel(template_upto, 40);
    reveal_with_fuel(width_upto, 40);
    reveal_with_fuel(mask_upto, 40);
    reveal_with_fuel(value_upto, 40);
}

proof fn lemma_template_and()
    ensures
        vstd::string::is_ascii("???????_?????_?????_111_?????_0110011"),
        denotes(ascii_bytes("???????_?????_?????_111_?????_0110011"@), Key::OpF3(0b0110011, 0b111)),
{
    reveal_strlit("???????_?????_?????_111_?????_0110011");
    reveal_with_fuel(template_upto, 40);
    reveal_with_fuel(width_upto, 40);
    reveal_with_fuel(mask_upto, 40);
    reveal_with_fuel(value_upto, 40);
}

proof fn lemma_template_addw()
    ensures
        vstd::string::is_ascii("0000000_?????_?????_000_?????_0111011"),
        denotes(ascii_bytes("0000000_?????_?????_000_?????_0111011"@), Key::OpF3F7(0b0111011, 0b000, 0b0000000)),
{
    reveal_strlit("0000000_?????_?????_000_?????_0111011");
    reveal_with_fuel(template_upto, 40);
    reveal_with_fuel(width_upto, 40);
    reveal_with_fuel(mask_upto, 40);
    reveal_with_fuel(value_upto, 40);
}

proof fn lemma_template_subw()
    ensures
        vstd::string::is_ascii("0100000_?????_?????_000_?????_0111011"),
        denotes(ascii_bytes("0100000_?????_?????_000_?????_0111011"@), Key::OpF3F7(0b0111011, 0b000, 0b0100000)),
{
    reveal_strlit("0100000_?????_?????_000_?????_0111011");
    reveal_with_fuel(template_upto, 40);
    reveal_with_fuel(width_upto, 40);
    reveal_with_fuel(mask_upto, 40);
    reveal_with_fuel(value_upto, 40);
}

proof fn lemma_template_sllw()
    ensures
        vstd::string::is_ascii("???????_?????_?????_001_?????_0111011"),
        denotes(ascii_bytes("???????_?????_?????_001_?????_0111011"@), Key::OpF3(0b0111011, 0b001)),
{
    reveal_strlit("???????_?????_?????_001_?????_0111011");
    reveal_with_fuel(template_upto, 40);
    reveal_with_fuel(width_upto, 40);
    reveal_with_fuel(mask_upto, 40);
    reveal_with_fuel(value_upto, 40);
}

proof fn lemma_template_srlw()
    ensures
        vstd::string::is_ascii("0000000_?????_?????_101_?????_0111011"),
        denotes(ascii_bytes("0000000_?????_?????_101_?????_0111011"@), Key::OpF3F7(0b0111011, 0b101, 0b0000000)),
{
    reveal_strlit("0000000_?????_?????_101_?????_0111011");
    reveal_with_fuel(template_upto, 40);
    reveal_with_fuel(width_upto, 40);
    reveal_with_fuel(mask_upto, 40);
    reveal_with_fuel(value_upto, 40);
}

proof fn lemma_template_sraw()
    ensures
        vstd::string::is_ascii("0100000_?????_?????_101_?????_0111011"),
        denotes(ascii_bytes("0100000_?????_?????_101_?????_0111011"@), Key::OpF3F7(0b0111011, 0b101, 0b0100000)),
{
    reveal_strlit("0100000_?????_?????_101_?????_0111011");
    reveal_with_fuel(template_upto, 40);
    reveal_with_fuel(width_upto, 40);
    reveal_with_fuel(mask_upto, 40);
    reveal_with_fuel(value_upto, 40);
}

proof fn lemma_template_fence()
    ensures
        vstd::string::is_ascii("???????_?????_?????_000_?????_0001111"),
        denotes(ascii_bytes("???????_?????_?????_000_?????_0001111"@), Key::OpF3(0b0001111, 0b000)),
{
    reveal_strlit("???????_?????_?????_000_?????_0001111");
    reveal_with_fuel(template_upto, 40);
    reveal_with_fuel(width_upto, 40);
    reveal_with_fuel(mask_upto, 40);
    reveal_with_fuel(value_upto, 40);
}

proof fn lemma_template_fence_i()
    ensures
        vstd::string::is_ascii("???????_?????_?????_001_?????_0001111"),
        denotes(ascii_bytes("???????_?????_?????_001_?????_0001111"@), Key::OpF3(0b0001111, 0b001)),
{
    reveal_strlit("???????_?????_?????_001_?????_0001111");
    reveal_with_fuel(template_upto, 40);
    reveal_with_fuel(width_upto, 40);
    reveal_with_fuel(mask_upto, 40);
    reveal_with_fuel(value_upto, 40);
}

proof fn lemma_template_ecall()
    ensures
        vstd::string::is_ascii("0000000_00000_?????_000_?????_1110011"),
        denotes(ascii_bytes("0000000_00000_?????_000_?????_1110011"@), Key::OpF3Imm(0b1110011, 0b000, 0)),
{
    reveal_strlit("0000000_00000_?????_000_?????_1110011");
    reveal_with_fuel(template_upto, 40);
    reveal_with_fuel(width_upto, 40);
    reveal_with_fuel(mask_upto, 40);
    reveal_with_fuel(value_upto, 40);
}

proof fn lemma_template_ebreak()
    ensures
        vstd::string::is_ascii("0000000_00001_?????_000_?????_1110011"),
        denotes(ascii_bytes("0000000_00001_?????_000_?????_1110011"@), Key::OpF3Imm(0b1110011, 0b000, 1)),
{
    reveal_strlit("0000000_00001_?????_000_?????_1110011");
    reveal_with_fuel(template_upto, 40);
    reveal_with_fuel(width_upto, 40);
    reveal_with_fuel(mask_upto, 40);
    reveal_with_fuel(value_upto, 40);
}

proof fn lemma_template_csrrw()
    ensures
        vstd::string::is_ascii("???????_?????_?????_001_?????_1110011"),
        denotes(ascii_bytes("???????_?????_?????_001_?????_1110011"@), Key::OpF3(0b1110011, 0b001)),
{
    reveal_strlit("???????_?????_?????_001_?????_1110011");
    reveal_with_fuel(template_upto, 40);
    reveal_with_fuel(width_upto, 40);
    reveal_with_fuel(mask_upto, 40);
    reveal_with_fuel(value_upto, 40);
}

proof fn lemma_template_csrrs()
    ensures
        vstd::string::is_ascii("???????_?????_?????_010_?????_1110011"),
        denotes(ascii_bytes("???????_?????_?????_010_?????_1110011"@), Key::OpF3(0b1110011, 0b010)),
{
    reveal_strlit("???????_?????_?????_010_?????_1110011");
    reveal_with_fuel(template_upto, 40);
    reveal_with_fuel(width_upto, 40);
    reveal_with_fuel(mask_upto, 40);
    reveal_with_fuel(value_upto, 40);
}

proof fn lemma_template_csrrc()
    ensures
        vstd::string::is_ascii("???????_?????_?????_011_?????_1110011"),
        denotes(ascii_bytes("???????_?????_?????_011_?????_1110011"@), Key::OpF3(0b1110011, 0b011)),
{
    reveal_strlit("???????_?????_?????_011_?????_1110011");
    reveal_with_fuel(template_upto, 40);
    reveal_with_fuel(width_upto, 40);
    reveal_with_fuel(mask_upto, 40);
    reveal_with_fuel(value_upto, 40);
}

proof fn lemma_template_csrrwi()
    ensures
        vstd::string::is_ascii("???????_?????_?????_101_?????_1110011"),
        denotes(ascii_bytes("???????_?????_?????_101_?????_1110011"@), Key::OpF3(0b1110011, 0b101)),
{
    reveal_strlit("???????_?????_?????_101_?????_1110011");
    reveal_with_fuel(template_upto, 40);
    reveal_with_fuel(width_upto, 40);
    reveal_with_fuel(mask_upto, 40);
    reveal_with_fuel(value_upto, 40);
}

proof fn lemma_template_csrrsi()
    ensures
        vstd::string::is_ascii("???????_?????_?????_110_?????_1110011"),
        denotes(ascii_bytes("???????_?????_?????_110_?????_1110011"@), Key::OpF3(0b1110011, 0b110)),
{
    reveal_strlit("???????_?????_?????_110_?????_1110011");
    reveal_with_fuel(template_upto, 40);
    reveal_with_fuel(width_upto, 40);
    reveal_with_fuel(mask_upto, 40);
    reveal_with_fuel(value_upto, 40);
}

proof fn lemma_template_csrrci()
    ensures
        vstd::string::is_ascii("???????_?????_?????_111_?????_1110011"),
        denotes(ascii_bytes("???????_?????_?????_111_?????_1110011"@), Key::OpF3(0b1110011, 0b111)),
{
    reveal_strlit("???????_?????_?????_111_?????_1110011");
    reveal_with_fuel(template_upto, 40);
    reveal_with_fuel(width_upto, 40);
    reveal_with_fuel(mask_upto, 40);
    reveal_with_fuel(value_upto, 40);
}

/// Entry `i` of the template table.
fn pattern_entry(i: usize) -> (r: PatternEntry)
    requires
        i < TABLE_LEN,
    ensures
        denotes(r.pattern@, table(i).key),
        key_in_range(table(i).key),
        r.format == table(i).format,
        r.opcode == table(i).opcode,
        r.ext_op == table(i).ext_op,
{
    match i {
        0 => {
            proof {
                lemma_template_lui();
            }
            entry("???????_?????_?????_???_?????_0110111", Format::U, OpCode::lui, 0)
        },
        1 => {
            proof {
                lemma_template_auipc();
            }
            entry("???????_?????_?????_???_?????_0010111", Format::U, OpCode::auipc, 0)
        },
        2 => {
            proof {
                lemma_template_jal();
            }
            entry("???????_?????_?????_???_?????_1101111", Format::J, OpCode::jal, 0)
        },
        3 => {
            proof {
                lemma_template_jalr();
            }
            entry("???????_?????_?????_000_?????_1100111", Format::I, OpCode::jalr, 0)
        },
        4 => {
            proof {
                lemma_template_beq();
            }
            entry("???????_?????_?????_000_?????_1100011", Format::B, OpCode::br, BR_EQ)
        },
        5 => {
            proof {
                lemma_template_bne();
            }
            entry("???????_?????_?????_001_?????_1100011", Format::B, OpCode::br, BR_NE)
        },
        6 => {
            proof {
                lemma_template_blt();
            }
            entry("???????_?????_?????_100_?????_1100011", Format::B, OpCode::br, BR_LT)
        },
        7 => {
            proof {
                lemma_template_bge();
            }
            entry("???????_?????_?????_101_?????_1100011", Format::B, OpCode::br, BR_GE)
        },
        8 => {
            proof {
                lemma_template_bltu();
            }
            entry("???????_?????_?????_110_?????_1100011", Format::B, OpCode::br, BR_LTU)
        },
        9 => {
            proof {
                lemma_template_bgeu();
            }
            entry("???????_?????_?????_111_?????_1100011", Format::B, OpCode::br, BR_GEU)
        },
        10 => {
            proof {
                lemma_template_lb();
            }
            entry("???????_?????_?????_000_?????_0000011", Format::I, OpCode::load, LS_B)
        },
        11 => {
            proof {
                lemma_template_lh();
            }
            entry("???????_?????_?????_001_?????_0000011", Format::I, OpCode::load, LS_H)
        },
        12 => {
            proof {
                lemma_template_lw();
            }
            entry("???????_?????_?????_010_?????_0000011", Format::I, OpCode::load, LS_W)
        },
        13 => {
            proof {
                lemma_template_ld();
            }
            entry("???????_?????_?????_011_?????_0000011", Format::I, OpCode::load, LS_D)
        },
        14 => {
            proof {
                lemma_template_lbu();
            }
            entry("???????_?????_?????_100_?????_0000011", Format::I, OpCode::load, LS_BU)
        },
        15 => {
            proof {
                lemma_template_lhu();
            }
            entry("???????_?????_?????_101_?????_0000011", Format::I, OpCode::load, LS_HU)
        },
        16 => {
            proof {
                lemma_template_lwu();
            }
            entry("???????_?????_?????_110_?????_0000011", Format::I, OpCode::load, LS_WU)
        },
        17 => {
            proof {
                lemma_template_sb();
            }
            entry("???????_?????_?????_000_?????_0100011", Format::S, OpCode::store, LS_B)
        },
        18 => {
            proof {
                lemma_template_sh();
            }
            entry("???????_?????_?????_001_?????_0100011", Format::S, OpCode::store, LS_H)
        },
        19 => {
            proof {
                lemma_template_sw();
            }
            entry("???????_?????_?????_010_?????_0100011", Format::S, OpCode::store, LS_W)
        },
        20 => {
            proof {
                lemma_template_sd();
            }
            entry("???????_?????_?????_011_?????_0100011", Format::S, OpCode::store, LS_D)
        },
        21 => {
            proof {
                lemma_template_addi();
            }
            entry("???????_?????_?????_000_?????_0010011", Format::I, OpCode::iop, ALU_ADD)
        },
        22 => {
            proof {
                lemma_template_slti();
            }
            entry("???????_?????_?????_010_?????_0010011", Format::I, OpCode::iop, ALU_SLT)
        },
        23 => {
            proof {
                lemma_template_sltiu();
            }
            entry("???????_?????_?????_011_?????_0010011", Format::I, OpCode::iop, ALU_SLTU)
        },
        24 => {
            proof {
                lemma_template_xori();
            }
            entry("???????_?????_?????_100_?????_0010011", Format::I, OpCode::iop, ALU_XOR)
        },
        25 => {
            proof {
                lemma_template_ori();
            }
            entry("???????_?????_?????_110_?????_0010011", Format::I, OpCode::iop, ALU_OR)
        },
        26 => {
            proof {
                lemma_template_andi();
            }
            entry("???????_?????_?????_111_?????_0010011", Format::I, OpCode::iop, ALU_AND)
        },
        27 => {
            proof {
                lemma_template_slli();
            }
            entry("000000?_?????_?????_001_?????_0010011", Format::I, OpCode::iop, ALU_SLL)
        },
        28 => {
            proof {
                lemma_template_srli();
            }
            entry("000000?_?????_?????_101_?????_0010011", Format::I, OpCode::iop, ALU_SRL)
        },
        29 => {
            proof {
                lemma_template_srai();
            }
            entry("010000?_?????_?????_101_?????_0010011", Format::I, OpCode::iop, ALU_SRA)
        },
        30 => {
            proof {
                lemma_template_addiw();
            }
            entry("???????_?????_?????_000_?????_0011011", Format::I, OpCode::iop, ALU_ADDW)
        },
        31 => {
            proof {
                lemma_template_slliw();
            }
            entry("0000000_?????_?????_001_?????_0011011", Format::I, OpCode::iop, ALU_SLLW)
        },
        32 => {
            proof {
                lemma_template_srliw();
            }
            entry("0000000_?????_?????_101_?????_0011011", Format::I, OpCode::iop, ALU_SRLW)
        },
        33 => {
            proof {
                lemma_template_sraiw();
            }
            entry("0100000_?????_?????_101_?????_0011011", Format::I, OpCode::iop, ALU_SRAW)
        },
        34 => {
            proof {
                lemma_template_add();
            }
            entry("0000000_?????_?????_000_?????_0110011", Format::R, OpCode::op, ALU_ADD)
        },
        35 => {
            proof {
                lemma_template_sub();
            }
            entry("0100000_?????_?????_000_?????_0110011", Format::R, OpCode::op, ALU_SUB)
        },
        36 => {
            proof {
                lemma_template_sll();
            }
            entry("???????_?????_?????_001_?????_0110011", Format::R, OpCode::op, ALU_SLL)
        },
        37 => {
            proof {
                lemma_template_slt();
            }
            entry("???????_?????_?????_010_?????_0110011", Format::R, OpCode::op, ALU_SLT)
        },
        38 => {
            proof {
                lemma_template_sltu();
            }
            entry("???????_?????_?????_011_?????_0110011", Format::R, OpCode::op, ALU_SLTU)
        },
        39 => {
            proof {
                lemma_template_xor();
            }
            entry("???????_?????_?????_100_?????_0110011", Format::R, OpCode::op, ALU_XOR)
        },
        40 => {
            proof {
                lemma_template_srl();
            }
            entry("0000000_?????_?????_101_?????_0110011", Format::R, OpCode::op, ALU_SRL)
        },
        41 => {
            proof {
                lemma_template_sra();
            }
            entry("0100000_?????_?????_101_?????_0110011", Format::R, OpCode::op, ALU_SRA)
        },
        42 => {
            proof {
                lemma_template_or();
            }
            entry("???????_?????_?????_110_?????_0110011", Format::R, OpCode::op, ALU_OR)
        },
        43 => {
            proof {
                lemma_template_and();
            }
            entry("???????_?????_?????_111_?????_0110011", Format::R, OpCode::op, ALU_AND)
        },
        44 => {
            proof {
                lemma_template_addw();
            }
            entry("0000000_?????_?????_000_?????_0111011", Format::R, OpCode::op, ALU_ADDW)
        },
        45 => {
            proof {
                lemma_template_subw();
            }
            entry("0100000_?????_?????_000_?????_0111011", Format::R, OpCode::op, ALU_SUBW)
        },
        46 => {
            proof {
                lemma_template_sllw();
            }
            entry("???????_?????_?????_001_?????_0111011", Format::R, OpCode::op, ALU_SLLW)
        },
        47 => {
            proof {
                lemma_template_srlw();
            }
            entry("0000000_?????_?????_101_?????_0111011", Format::R, OpCode::op, ALU_SRLW)
        },
        48 => {
            proof {
                lemma_template_sraw();
            }
            entry("0100000_?????_?????_101_?????_0111011", Format::R, OpCode::op, ALU_SRAW)
        },
        49 => {
            proof {
                lemma_template_fence();
            }
            entry("???????_?????_?????_000_?????_0001111", Format::I, OpCode::fence, 0)
        },
        50 => {
            proof {
                lemma_template_fence_i();
            }
            entry("???????_?????_?????_001_?????_0001111", Format::I, OpCode::fence, FENCE_I)
        },
        51 => {
            proof {
                lemma_template_ecall();
            }
            entry("0000000_00000_?????_000_?????_1110011", Format::I, OpCode::excep, EXCEP_CALL)
        },
        52 => {
            proof {
                lemma_template_ebreak();
            }
            entry("0000000_00001_?????_000_?????_1110011", Format::I, OpCode::excep, EXCEP_RET)
        },
        53 => {
            proof {
                lemma_template_csrrw();
            }
            entry("???????_?????_?????_001_?????_1110011", Format::I, OpCode::csr, CSR_RW)
        },
        54 => {
            proof {
                lemma_template_csrrs();
            }
            entry("???????_?????_?????_010_?????_1110011", Format::I, OpCode::csr, CSR_RS)
        },
        55 => {
            proof {
                lemma_template_csrrc();
            }
            entry("???????_?????_?????_011_?????_1110011", Format::I, OpCode::csr, CSR_RC)
        },
        56 => {
            proof {
                lemma_template_csrrwi();
            }
            entry("???????_?????_?????_101_?????_1110011", Format::I, OpCode::csr, CSR_RWI)
        },
        57 => {
            proof {
                lemma_template_csrrsi();
            }
            entry("???????_?????_?????_110_?????_1110011", Format::I, OpCode::csr, CSR_RSI)
        },
        _ => {
            proof {
                lemma_template_csrrci();
            }
            entry("???????_?????_?????_111_?????_1110011", Format::I, OpCode::csr, CSR_RCI)
        },
    }
}

/// A template that denotes a key matches exactly the inputs of four or
/// more bytes whose little-endian word the key holds of.
proof fn lemma_denotes(p: Seq<u8>, k: Key, src: Seq<u8>)
    requires
        denotes(p, k),
        key_in_range(k),
    ensures
        is_template(p),
        stripped(p).len() == 32,
        template_matches(stripped(p), src) == (src.len() >= 4 && key_holds(k, le_word(src))),
{
    lemma_upto(p);
    lemma_template_word(p, src);
    if src.len() >= 4 {
        lemma_key_mask(k, le_word(src));
    }
}

proof fn lemma_low_byte(src: Seq<u8>)
    requires
        src.len() >= 4,
    ensures
        (field(le_word(src), 6, 0) == 0b0110111) == (src[0] & 0x7f == 0b0110111),
{
    let (b0, b1, b2, b3) = (src[0], src[1], src[2], src[3]);
    assert((field(
        (b0 as u32) | ((b1 as u32) << 8u32) | ((b2 as u32) << 16u32) | ((b3 as u32) << 24u32),
        6,
        0,
    ) == 0b0110111) == (b0 & 0x7f == 0b0110111)) by (bit_vector);
}

/// The template `????????????????????_?????_0110111` (the `lui` opcode)
/// matches exactly the inputs of four or more bytes whose low seven bits are
/// `0110111`, whatever the other 25 bits of the word hold.
pub proof fn lemma_lui_template(src: Seq<u8>)
    ensures
        vstd::string::is_ascii("????????????????????_?????_0110111"),
        is_template(ascii_bytes("????????????????????_?????_0110111"@)),
        stripped(ascii_bytes("????????????????????_?????_0110111"@)).len() == 32,
        template_matches(stripped(ascii_bytes("????????????????????_?????_0110111"@)), src) == (
        src.len() >= 4 && src[0] & 0x7f == 0b0110111),
{
    reveal_strlit("????????????????????_?????_0110111");
    let p = ascii_bytes("????????????????????_?????_0110111"@);
    assert(denotes(p, Key::Op(0b0110111))) by {
        reveal_with_fuel(template_upto, 40);
        reveal_with_fuel(width_upto, 40);
        reveal_with_fuel(mask_upto, 40);
        reveal_with_fuel(value_upto, 40);
    }
    lemma_denotes(p, Key::Op(0b0110111), src);
    if src.len() >= 4 {
        lemma_low_byte(src);
    }
}

/// Decodes the instruction at the start of `src` with the template table:
/// the first entry whose template matches builds the record with its
/// format, tag and sub-tag. The second component is the template's length
/// in bits, 32. Fewer than four bytes never match; bytes after the fourth
/// are not read.
pub fn flat_disasm(src: &[u8]) -> (r: Option<(FlatRiscV, usize)>)
    ensures
        src@.len() < 4 ==> r is None,
        src@.len() >= 4 ==> r == match flat_decoded(le_word(src@)) {
            Some(f) => Some((f, 32usize)),
            None => None::<(FlatRiscV, usize)>,
        },
{
    let mut i: usize = 0;
    while i < TABLE_LEN
        invariant
            i <= TABLE_LEN,
            src@.len() >= 4 ==> first_match(le_word(src@), 0) == first_match(le_word(src@), i),
        decreases TABLE_LEN - i,
    {
        let e = pattern_entry(i);
        proof {
            lemma_denotes(e.pattern@, table(i).key, src@);
        }
        let (matched, len) = bitpat(e.pattern, src);
        if matched {
            let w: u32 = (src[0] as u32) | ((src[1] as u32) << 8) | ((src[2] as u32) << 16) | ((
            src[3] as u32) << 24);
            return Some((record(e.format, e.opcode, e.ext_op, w), len));
        }
        i += 1;
    }
    None
}

} // verus!
