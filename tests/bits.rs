use lyuu_commons::bits::{bit, bits, sign_extend};
use lyuu_commons::format::{b_imm, funct3, funct7, i_imm, j_imm, opcode, rd, rs1, rs2, s_imm, u_imm};

#[test]
fn test_bits() {
    assert_eq!(bits(0b1001001, 3, 0), 0b1001);
    assert_eq!(bits(0b1001001, 4, 2), 0b010);
}

#[test]
fn test_sext() {
    assert_eq!(sign_extend(0b0111_11111111, 12, 16), 0b111_11111111);
    assert_eq!(sign_extend(0b1111_11111111, 12, 16), 0b11111111_11111111);
}

#[test]
fn single_bits() {
    assert_eq!(bit(0b100, 2), 1);
    assert_eq!(bit(0b100, 1), 0);
    assert_eq!(bit(0x8000_0000, 31), 1);
}

#[test]
fn full_width_field() {
    assert_eq!(bits(0xdead_beef, 31, 0), 0xdead_beef);
    assert_eq!(bits(0xdead_beef, 31, 28), 0xd);
}

#[test]
fn sign_extend_twelve_bits() {
    for v in 0u32..0x1000 {
        let expected = if v & 0x800 == 0 { v } else { v | 0xffff_f000 };
        assert_eq!(sign_extend(v, 12, 32), expected);
    }
    assert_eq!(sign_extend(0xfff, 12, 32) as i32, -1);
    assert_eq!(sign_extend(0x800, 12, 32) as i32, -2048);
}

#[test]
fn sign_extend_thirteen_and_twenty_one_bits() {
    assert_eq!(sign_extend(0x1000, 13, 32), 0xffff_f000);
    assert_eq!(sign_extend(0x0fff, 13, 32), 0x0fff);
    assert_eq!(sign_extend(0x10_0000, 21, 32), 0xfff0_0000);
    assert_eq!(sign_extend(0x0f_fffe, 21, 32), 0x0f_fffe);
    for v in (0u32..0x20_0000).step_by(4099) {
        let expected = if v & 0x10_0000 == 0 { v } else { v | 0xffe0_0000 };
        assert_eq!(sign_extend(v, 21, 32), expected);
    }
}

#[test]
fn register_fields() {
    // add x1, x2, x3
    let w: u32 = 0b0000000_00011_00010_000_00001_0110011;
    assert_eq!(opcode(w), 0b0110011);
    assert_eq!(rd(w), 1);
    assert_eq!(rs1(w), 2);
    assert_eq!(rs2(w), 3);
    assert_eq!(funct3(w), 0);
    assert_eq!(funct7(w), 0);
    assert_eq!(funct7(0b0100000_00011_00010_000_00001_0110011), 0b0100000);
}

#[test]
fn format_immediates() {
    // addi x5, x6, -1
    assert_eq!(i_imm(0xfff3_0293) as i32, -1);
    // sw x2, -4(x1): imm = 0xffc
    assert_eq!(s_imm(0xfe20_ae23) as i32, -4);
    // beq x1, x2, 8
    assert_eq!(b_imm(0x0020_8463) as i32, 8);
    // beq x0, x0, -4096 (only bit 31 set in the immediate)
    assert_eq!(b_imm(0x8000_0063) as i32, -4096);
    // jal x1, 2048: imm[11] sits in bit 20
    assert_eq!(j_imm(0x0010_00ef) as i32, 2048);
    // jal x0, -1048576
    assert_eq!(j_imm(0x8000_006f) as i32, -1_048_576);
    assert_eq!(u_imm(0xabcd_e0b7), 0xabcd_e000);
}
