use lyuu_commons::flat::{
    ALU_ADD, ALU_ADDW, ALU_SLL, ALU_SRA, ALU_SRAW, ALU_SUB, BR_EQ, CSR_RS, EXCEP_CALL, EXCEP_RET,
    FENCE_I, LS_W,
};
use lyuu_commons::{
    bitpat, disassembly, flat_disasm, BrType, Csr, CsrOpType, EOpType, FlatRiscV, IsFenceI,
    LoadType, OpCode, OpType, Pred, RiscV, StoreType, Succ,
};

fn next(state: &mut u64) -> u32 {
    *state = state.wrapping_mul(6364136223846793005).wrapping_add(1442695040888963407);
    (*state >> 32) as u32
}

fn flat(w: u32) -> Option<FlatRiscV> {
    let (f, n) = flat_disasm(&w.to_le_bytes())?;
    assert_eq!(n, 32);
    Some(f)
}

#[test]
fn test1() {
    let src = 0b11111111111111111111_00000_0110111_u32.to_le_bytes();
    let r = flat_disasm(&src).unwrap();
    println!("out: {:?}", r);
}

#[test]
fn test_bitpat() {
    assert_eq!(bitpat("10 00_1001".as_bytes(), &0b10001001u8.to_le_bytes()), (true, 8));
    assert_eq!(bitpat("00001001".as_bytes(), &0b0001001u8.to_le_bytes()), (true, 8));
}

#[test]
fn bitpat_mismatch_and_short_input() {
    assert_eq!(bitpat("00001001".as_bytes(), &[0b0000_1000u8]), (false, 8));
    assert_eq!(bitpat("1???????_????????".as_bytes(), &[0xffu8]), (false, 16));
    assert_eq!(bitpat("????????\t????????".as_bytes(), &[0u8, 0u8, 7u8]), (true, 16));
    assert_eq!(bitpat("".as_bytes(), &[]), (true, 0));
}

#[test]
fn lui_template_reads_only_the_opcode() {
    let pat = "????????????????????_?????_0110111".as_bytes();
    let mut state = 99u64;
    for _ in 0..20000 {
        let w = next(&mut state);
        let expected = w & 0x7f == 0b0110111;
        assert_eq!(bitpat(pat, &w.to_le_bytes()), (expected, 32));
        let forced = (w & !0x7f) | 0b0110111;
        assert_eq!(bitpat(pat, &forced.to_le_bytes()), (true, 32));
    }
    assert_eq!(bitpat(pat, &[0b0110111u8, 0, 0]), (false, 32));
}

#[test]
fn lui_on_both_paths() {
    let w: u32 = 0b11111111111111111111_00000_0110111;
    let (f, n) = flat_disasm(&w.to_le_bytes()).unwrap();
    assert_eq!(n, 32);
    assert_eq!(f.opcode, OpCode::lui);
    assert_eq!(f.imm, 0xFFFF_F000);
    assert_eq!(f.rd, 0);
    assert_eq!(f.render(), "lui.0  x0, x0, x0, 0b11111111111111111111000000000000");
    assert_eq!(disassembly(w).unwrap().1, 4);
}

#[test]
fn short_input_gives_nothing() {
    let w: u32 = 0b11111111111111111111_00000_0110111;
    let b = w.to_le_bytes();
    assert_eq!(flat_disasm(&b[..3]), None);
    assert_eq!(flat_disasm(&[]), None);
    let mut longer = b.to_vec();
    longer.extend_from_slice(&[0xde, 0xad]);
    assert_eq!(flat_disasm(&longer), flat_disasm(&b));
}

#[test]
fn flat_records_of_each_format() {
    // add x1, x2, x3
    let f = flat(0x0031_00b3).unwrap();
    assert_eq!((f.opcode, f.ext_op, f.rd, f.rs1, f.rs2, f.imm), (OpCode::op, ALU_ADD, 1, 2, 3, 0));
    assert_eq!(f.render(), "op.0  x1, x2, x3");
    // sub x1, x2, x3
    assert_eq!(flat(0x4031_00b3).unwrap().ext_op, ALU_SUB);
    // addi x5, x6, -1
    let f = flat(0xfff3_0293).unwrap();
    assert_eq!((f.opcode, f.ext_op, f.rd, f.rs1, f.imm), (OpCode::iop, ALU_ADD, 5, 6, 0xffff_ffff));
    // sw x2, -4(x1)
    let f = flat(0xfe20_ae23).unwrap();
    assert_eq!((f.opcode, f.ext_op, f.rd, f.rs1, f.rs2, f.imm), (OpCode::store, LS_W, 0, 1, 2, (-4i32) as u32));
    // beq x1, x2, 8
    let f = flat(0x0020_8463).unwrap();
    assert_eq!((f.opcode, f.ext_op, f.rs1, f.rs2, f.imm), (OpCode::br, BR_EQ, 1, 2, 8));
    // jal x0, -1048576
    let f = flat(0x8000_006f).unwrap();
    assert_eq!((f.opcode, f.rd, f.imm), (OpCode::jal, 0, (-1_048_576i32) as u32));
    // jalr x0, -8(x1) with funct3 000 only
    let f = flat(0xff80_8067).unwrap();
    assert_eq!((f.opcode, f.rd, f.rs1, f.imm), (OpCode::jalr, 0, 1, (-8i32) as u32));
    assert_eq!(flat(0xff80_9067), None);
    // lw x5, 4(x6)
    assert_eq!(flat(0x0043_2283).unwrap().ext_op, LS_W);
    // csrrs x5, 0x300, x0
    let f = flat(0x3000_22f3).unwrap();
    assert_eq!((f.opcode, f.ext_op, f.rd, f.imm), (OpCode::csr, CSR_RS, 5, 0x300));
    // ecall, ebreak, fence.i
    assert_eq!(flat(0x0000_0073).unwrap().ext_op, EXCEP_CALL);
    assert_eq!(flat(0x0010_0073).unwrap().ext_op, EXCEP_RET);
    assert_eq!(flat(0x0000_100f).unwrap().ext_op, FENCE_I);
    // an unknown major opcode
    assert_eq!(flat(0x0000_007f), None);
}

#[test]
fn normalizing_shift_amounts() {
    // srai x1, x2, 33
    let mut f = flat(0x4211_5093).unwrap();
    assert_eq!((f.opcode, f.ext_op, f.imm), (OpCode::iop, ALU_SRA, 0x421));
    let mut g = f;
    f.post_process(false);
    assert_eq!(f.imm, 33);
    g.post_process(true);
    assert_eq!(g.imm, 1);
    // sraiw x1, x2, 3 keeps five bits in either context
    let mut w = flat(0x4031_509b).unwrap();
    assert_eq!((w.opcode, w.ext_op), (OpCode::iop, ALU_SRAW));
    let mut w2 = w;
    w.post_process(false);
    w2.post_process(true);
    assert_eq!((w.imm, w2.imm), (3, 3));
    // slli x1, x2, 5
    let mut s = flat(0x0051_1093).unwrap();
    assert_eq!(s.ext_op, ALU_SLL);
    s.post_process(false);
    assert_eq!(s.imm, 5);
    // addiw keeps its immediate
    let mut a = flat(0xfff1_009b).unwrap();
    assert_eq!(a.ext_op, ALU_ADDW);
    a.post_process(true);
    assert_eq!(a.imm, 0xffff_ffff);
}

#[test]
fn normalizing_clears_meaningless_immediates() {
    let mut e = flat(0x0010_0073).unwrap();
    assert_eq!(e.imm, 1);
    e.post_process(true);
    assert_eq!(e.imm, 0);
    let mut r = FlatRiscV { opcode: OpCode::op, ext_op: ALU_ADD, rd: 1, rs1: 2, rs2: 3, imm: 77 };
    r.post_process(false);
    assert_eq!(r.imm, 0);
    let mut l = flat(0x0043_2283).unwrap();
    l.post_process(true);
    assert_eq!(l.imm, 4);
}

#[test]
fn normalizing_twice_is_normalizing_once() {
    let mut state = 5u64;
    for _ in 0..5000 {
        let w = next(&mut state);
        if let Some(f) = flat(w) {
            for ctx in [true, false] {
                let mut once = f;
                once.post_process(ctx);
                let mut twice = once;
                twice.post_process(ctx);
                assert_eq!(once, twice);
            }
        }
    }
}

fn agree(i: RiscV, f: FlatRiscV) -> bool {
    let br = |c: BrType| match c {
        BrType::Eq => 0,
        BrType::Ne => 1,
        BrType::Lt => 4,
        BrType::Ge => 5,
        BrType::Ltu => 6,
        BrType::Geu => 7,
    };
    let ld = |t: LoadType| match t {
        LoadType::Byte => 0,
        LoadType::Half => 1,
        LoadType::Word => 2,
        LoadType::Double => 3,
        LoadType::ByteU => 4,
        LoadType::HalfU => 5,
        LoadType::WordU => 6,
    };
    let st = |t: StoreType| match t {
        StoreType::Byte => 0,
        StoreType::Half => 1,
        StoreType::Word => 2,
        StoreType::Double => 3,
    };
    let alu = |t: OpType| match t {
        OpType::Add => 0b00000,
        OpType::Sub => 0b00010,
        OpType::Sll => 0b00100,
        OpType::Slt => 0b01000,
        OpType::Sltu => 0b01100,
        OpType::Xor => 0b10000,
        OpType::Srl => 0b10100,
        OpType::Sra => 0b10110,
        OpType::Or => 0b11000,
        OpType::And => 0b11100,
    };
    let csr = |t: CsrOpType| match t {
        CsrOpType::Rw => 1,
        CsrOpType::Rs => 2,
        CsrOpType::Rc => 3,
    };
    match i {
        RiscV::Lui(rd, imm) => f.opcode == OpCode::lui && f.rd == rd.0 && f.imm == imm,
        RiscV::Auipc(rd, imm) => f.opcode == OpCode::auipc && f.rd == rd.0 && f.imm == imm,
        RiscV::Jal(rd, o) => f.opcode == OpCode::jal && f.rd == rd.0 && f.imm == o as u32,
        RiscV::Jalr(rd, rs1, o) => {
            f.opcode == OpCode::jalr && f.rd == rd.0 && f.rs1 == rs1.0 && f.imm == o as u32
        }
        RiscV::Branch(c, a, b, o) => {
            f.opcode == OpCode::br && f.ext_op == br(c) && f.rs1 == a.0 && f.rs2 == b.0
                && f.imm == o as u32
        }
        RiscV::Load(t, rd, rs1, o) => {
            f.opcode == OpCode::load && f.ext_op == ld(t) && f.rd == rd.0 && f.rs1 == rs1.0
                && f.imm == o as u32
        }
        RiscV::Store(t, rs1, rs2, o) => {
            f.opcode == OpCode::store && f.ext_op == st(t) && f.rs1 == rs1.0 && f.rs2 == rs2.0
                && f.imm == o as u32
        }
        RiscV::OpI(t, rd, rs1, imm) => {
            f.opcode == OpCode::iop && f.ext_op == alu(t) && f.rd == rd.0 && f.rs1 == rs1.0
                && f.imm == imm as u32
        }
        RiscV::OpIW(t, rd, rs1, imm) => {
            f.opcode == OpCode::iop && f.ext_op == alu(t) | 1 && f.rd == rd.0 && f.rs1 == rs1.0
                && f.imm == imm as u32
        }
        RiscV::Op(t, rd, rs1, rs2) => {
            f.opcode == OpCode::op && f.ext_op == alu(t) && f.rd == rd.0 && f.rs1 == rs1.0
                && f.rs2 == rs2.0
        }
        RiscV::OpW(t, rd, rs1, rs2) => {
            f.opcode == OpCode::op && f.ext_op == alu(t) | 1 && f.rd == rd.0 && f.rs1 == rs1.0
                && f.rs2 == rs2.0
        }
        RiscV::Fence(IsFenceI(true), _, _) => f.opcode == OpCode::fence && f.ext_op == 1,
        RiscV::Fence(IsFenceI(false), Pred(p), Succ(s)) => {
            f.opcode == OpCode::fence && f.ext_op == 0 && (f.imm >> 4) & 0xf == p as u32
                && f.imm & 0xf == s as u32
        }
        RiscV::EOp(EOpType::Call) => f.opcode == OpCode::excep && f.ext_op == 0,
        RiscV::EOp(EOpType::Break) => f.opcode == OpCode::excep && f.ext_op == 1,
        RiscV::CsrOp(t, rd, rs1, Csr(c)) => {
            f.opcode == OpCode::csr && f.ext_op == csr(t) && f.rd == rd.0 && f.rs1 == rs1.0
                && f.imm & 0xfff == c as u32
        }
        RiscV::CsrOpI(t, rd, z, Csr(c)) => {
            f.opcode == OpCode::csr && f.ext_op == csr(t) + 4 && f.rd == rd.0 && f.rs1 == z
                && f.imm & 0xfff == c as u32
        }
    }
}

#[test]
fn both_paths_agree() {
    let mut state = 12345u64;
    let mut both = 0;
    for k in 0..200000u32 {
        let raw = next(&mut state);
        // steer most samples onto a supported major opcode
        let majors = [
            0b0110111, 0b0010111, 0b1101111, 0b1100111, 0b1100011, 0b0000011, 0b0100011,
            0b0010011, 0b0011011, 0b0110011, 0b0111011, 0b0001111, 0b1110011,
        ];
        let w = if k % 8 == 0 { raw } else { (raw & !0x7f) | majors[(k as usize) % majors.len()] };
        let s = disassembly(w);
        let f = flat(w);
        if let (Some((i, _)), Some(f)) = (s, f) {
            both += 1;
            assert!(agree(i, f), "word {:#010x}: {:?} vs {:?}", w, i, f);
        }
        let is_jalr_other = w & 0x7f == 0b1100111 && (w >> 12) & 7 != 0;
        if !is_jalr_other {
            assert_eq!(s.is_some(), f.is_some(), "word {:#010x}", w);
        }
    }
    assert!(both > 1000);
}
