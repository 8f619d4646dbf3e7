use lyuu_commons::{
    disassembly, BrType, Csr, CsrOpType, EOpType, IsFenceI, LoadType, OpType, Pred, Reg, RiscV,
    StoreType, Succ,
};

fn r_type(f7: u32, rs2: u32, rs1: u32, f3: u32, rd: u32, op: u32) -> u32 {
    (f7 << 25) | (rs2 << 20) | (rs1 << 15) | (f3 << 12) | (rd << 7) | op
}

fn i_type(imm: u32, rs1: u32, f3: u32, rd: u32, op: u32) -> u32 {
    ((imm & 0xfff) << 20) | (rs1 << 15) | (f3 << 12) | (rd << 7) | op
}

const MAJOR: [u32; 13] = [
    0b0110111, 0b0010111, 0b1101111, 0b1100111, 0b1100011, 0b0000011, 0b0100011, 0b0010011,
    0b0011011, 0b0110011, 0b0111011, 0b0001111, 0b1110011,
];

fn next(state: &mut u64) -> u32 {
    *state = state.wrapping_mul(6364136223846793005).wrapping_add(1442695040888963407);
    (*state >> 32) as u32
}

#[test]
fn test() {
    // csrrs x5, 0x300, x0 renders the CSR by its index when no name is known
    let w = i_type(0x300, 0, 0b010, 5, 0b1110011);
    let (i, n) = disassembly(w).unwrap();
    assert_eq!(n, 4);
    assert_eq!(i, RiscV::CsrOp(CsrOpType::Rs, Reg(5), Reg(0), Csr(0x300)));
    assert_eq!(i.render(None), "csrrs x5, 768, x0");
    assert_eq!(i.render(Some("mstatus")), "csrrs x5, mstatus, x0");
}

#[test]
fn lui_all_ones_upper() {
    let w: u32 = 0b11111111111111111111_00000_0110111;
    assert_eq!(disassembly(w), Some((RiscV::Lui(Reg(0), 0xFFFF_F000), 4)));
    assert_eq!(RiscV::Lui(Reg(0), 0xFFFF_F000).render(None), "lui x0, 4294963200");
}

#[test]
fn addi_minus_one() {
    let w = i_type(0xfff, 6, 0b000, 5, 0b0010011);
    let (i, n) = disassembly(w).unwrap();
    assert_eq!(i, RiscV::OpI(OpType::Add, Reg(5), Reg(6), -1));
    assert_eq!(n, 4);
    assert_eq!(i.render(None), "addi x5, x6, -1");
}

#[test]
fn beq_forward_eight() {
    let w: u32 = 0x0020_8463;
    assert_eq!(disassembly(w), Some((RiscV::Branch(BrType::Eq, Reg(1), Reg(2), 8), 4)));
    assert_eq!(RiscV::Branch(BrType::Eq, Reg(1), Reg(2), 8).render(None), "beq x1, x2, 8");
}

#[test]
fn unknown_major_opcodes_give_nothing() {
    let mut state = 7u64;
    for op in 0u32..128 {
        if MAJOR.contains(&op) {
            continue;
        }
        assert_eq!(disassembly(op), None);
        for _ in 0..50 {
            let w = (next(&mut state) & !0x7f) | op;
            assert_eq!(disassembly(w), None);
        }
    }
}

#[test]
fn loads_and_stores() {
    let w = i_type(4, 6, 0b010, 5, 0b0000011);
    let (i, _) = disassembly(w).unwrap();
    assert_eq!(i, RiscV::Load(LoadType::Word, Reg(5), Reg(6), 4));
    assert_eq!(i.render(None), "lw x5, 4(x6)");
    assert_eq!(disassembly(i_type(0, 1, 0b111, 2, 0b0000011)), None);
    // sw x2, -4(x1)
    let (s, _) = disassembly(0xfe20_ae23).unwrap();
    assert_eq!(s, RiscV::Store(StoreType::Word, Reg(1), Reg(2), -4));
    assert_eq!(s.render(None), "sw x2, -4(x1)");
    assert_eq!(disassembly(r_type(0, 2, 1, 0b100, 0, 0b0100011)), None);
}

#[test]
fn jumps() {
    assert_eq!(disassembly(0x0010_00ef), Some((RiscV::Jal(Reg(1), 2048), 4)));
    assert_eq!(disassembly(0x8000_006f), Some((RiscV::Jal(Reg(0), -1_048_576), 4)));
    let w = i_type(0xff8, 1, 0, 0, 0b1100111);
    let (j, _) = disassembly(w).unwrap();
    assert_eq!(j, RiscV::Jalr(Reg(0), Reg(1), -8));
    assert_eq!(j.render(None), "jalr x0, -8(x1)");
    assert_eq!(RiscV::Auipc(Reg(3), 0x1000).render(None), "auipc x3, 4096");
}

#[test]
fn branch_conditions() {
    let conds = [
        (0b000, Some(BrType::Eq)),
        (0b001, Some(BrType::Ne)),
        (0b010, None),
        (0b011, None),
        (0b100, Some(BrType::Lt)),
        (0b101, Some(BrType::Ge)),
        (0b110, Some(BrType::Ltu)),
        (0b111, Some(BrType::Geu)),
    ];
    for (f3, c) in conds {
        let w = r_type(0, 2, 1, f3, 0, 0b1100011);
        assert_eq!(disassembly(w).map(|(i, _)| i), c.map(|c| RiscV::Branch(c, Reg(1), Reg(2), 0)));
    }
}

#[test]
fn immediate_shifts() {
    // srai x1, x2, 33 (64-bit shift amount)
    let w = i_type((0b010000 << 6) | 33, 2, 0b101, 1, 0b0010011);
    let (i, _) = disassembly(w).unwrap();
    assert_eq!(i, RiscV::OpI(OpType::Sra, Reg(1), Reg(2), 0x421));
    // slli with a nonzero upper immediate is not an instruction
    assert_eq!(disassembly(i_type(0b100000 << 6, 2, 0b001, 1, 0b0010011)), None);
    // sraiw x1, x2, 3
    let w = i_type((0b0100000 << 5) | 3, 2, 0b101, 1, 0b0011011);
    assert_eq!(disassembly(w).unwrap().0, RiscV::OpIW(OpType::Sra, Reg(1), Reg(2), 0x403));
    // slliw with shamt[5] set is not an instruction
    assert_eq!(disassembly(i_type(0b0000001 << 5, 2, 0b001, 1, 0b0011011)), None);
    // addiw x1, x2, -1
    let w = i_type(0xfff, 2, 0b000, 1, 0b0011011);
    let (i, _) = disassembly(w).unwrap();
    assert_eq!(i, RiscV::OpIW(OpType::Add, Reg(1), Reg(2), -1));
    assert_eq!(i.render(None), "addiw x1, x2, -1");
}

#[test]
fn register_operations() {
    let add = r_type(0, 3, 2, 0b000, 1, 0b0110011);
    assert_eq!(disassembly(add), Some((RiscV::Op(OpType::Add, Reg(1), Reg(2), Reg(3)), 4)));
    assert_eq!(RiscV::Op(OpType::Add, Reg(1), Reg(2), Reg(3)).render(None), "add x1, x2, x3");
    let sub = r_type(0b0100000, 3, 2, 0b000, 1, 0b0110011);
    assert_eq!(disassembly(sub).unwrap().0, RiscV::Op(OpType::Sub, Reg(1), Reg(2), Reg(3)));
    assert_eq!(disassembly(r_type(0b0000001, 3, 2, 0b000, 1, 0b0110011)), None);
    let sra = r_type(0b0100000, 3, 2, 0b101, 1, 0b0110011);
    assert_eq!(disassembly(sra).unwrap().0, RiscV::Op(OpType::Sra, Reg(1), Reg(2), Reg(3)));
    let subw = r_type(0b0100000, 3, 2, 0b000, 1, 0b0111011);
    let (i, _) = disassembly(subw).unwrap();
    assert_eq!(i, RiscV::OpW(OpType::Sub, Reg(1), Reg(2), Reg(3)));
    assert_eq!(i.render(None), "subw x1, x2, x3");
    assert_eq!(disassembly(r_type(0, 3, 2, 0b010, 1, 0b0111011)), None);
}

#[test]
fn fences_and_system() {
    // fence rw, rw: pred = 0b0011, succ = 0b0011
    let w = i_type(0b0011_0011, 0, 0b000, 0, 0b0001111);
    let (f, _) = disassembly(w).unwrap();
    assert_eq!(f, RiscV::Fence(IsFenceI(false), Pred(3), Succ(3)));
    assert_eq!(f.render(None), "fence 3, 3");
    let w = i_type(0, 0, 0b001, 0, 0b0001111);
    let (f, _) = disassembly(w).unwrap();
    assert_eq!(f, RiscV::Fence(IsFenceI(true), Pred(0), Succ(0)));
    assert_eq!(f.render(None), "fence.i");
    assert_eq!(disassembly(0x0000_0073), Some((RiscV::EOp(EOpType::Call), 4)));
    assert_eq!(disassembly(0x0010_0073), Some((RiscV::EOp(EOpType::Break), 4)));
    assert_eq!(RiscV::EOp(EOpType::Break).render(None), "ebreak");
    assert_eq!(disassembly(0x3020_0073), None);
    let w = i_type(0x341, 7, 0b101, 1, 0b1110011);
    let (c, _) = disassembly(w).unwrap();
    assert_eq!(c, RiscV::CsrOpI(CsrOpType::Rw, Reg(1), 7, Csr(0x341)));
    assert_eq!(c.render(None), "csrrwi x1, 833, 7");
    assert_eq!(disassembly(i_type(0x341, 7, 0b100, 1, 0b1110011)), None);
}

#[test]
fn renderable_combinations() {
    assert!(RiscV::OpI(OpType::Sltu, Reg(1), Reg(2), 3).is_renderable());
    assert_eq!(RiscV::OpI(OpType::Sltu, Reg(1), Reg(2), 3).render(None), "sltiu x1, x2, 3");
    assert!(!RiscV::OpI(OpType::Sub, Reg(1), Reg(2), 3).is_renderable());
    assert!(!RiscV::OpIW(OpType::Xor, Reg(1), Reg(2), 3).is_renderable());
    assert!(!RiscV::OpW(OpType::Or, Reg(1), Reg(2), Reg(3)).is_renderable());
}

#[test]
fn reg_new_keeps_index() {
    assert_eq!(Reg::new(31), Reg(31));
    assert_eq!(Reg::new(0).0, 0);
}
