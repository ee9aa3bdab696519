use injectorpp::a64::{emit_b, emit_br, emit_movk_x, emit_movz_w, emit_movz_x, emit_ret,
    is_a64_b_uncond_imm, is_a64_br_reg, is_a64_ret, A64_NOP};
use injectorpp::words::{append_instruction, read_word, write_instruction};

#[test]
fn movz_x_encodes_immediate_and_register() {
    assert_eq!(emit_movz_x(9, 0x5678, 0), 0xd28acf09);
    assert_eq!(emit_movz_x(9, 0x1234, 3), 0xd2e24689);
}

#[test]
fn movk_x_encodes_shift_slot() {
    assert_eq!(emit_movk_x(9, 0x2345, 1), 0xf2a468a9);
    assert_eq!(emit_movk_x(9, 0x0001, 2), 0xf2c00029);
    assert_eq!(emit_movk_x(9, 0x0000, 3), 0xf2e00009);
}

#[test]
fn movz_w_encodes_boolean_immediates() {
    assert_eq!(emit_movz_w(0, 1), 0x52800020);
    assert_eq!(emit_movz_w(0, 0), 0x52800000);
}

#[test]
fn br_and_ret_encode_register() {
    assert_eq!(emit_br(9), 0xd61f0120);
    assert_eq!(emit_ret(30), 0xd65f03c0);
}

#[test]
fn b_encodes_positive_and_negative_offsets() {
    assert_eq!(emit_b(0x400), 0x14000400);
    assert_eq!(emit_b(-0x400), 0x17fffc00);
    assert_eq!(emit_b(0), 0x14000000);
    assert_eq!(emit_b(-1), 0x17ffffff);
}

#[test]
fn detectors_recognize_ret() {
    assert!(is_a64_ret(0xd65f03c0));
    assert!(is_a64_ret(0xd65f0000));
    assert!(!is_a64_ret(A64_NOP));
    assert!(!is_a64_ret(0xd61f0120));
}

#[test]
fn detectors_recognize_br() {
    assert!(is_a64_br_reg(0xd61f0120));
    assert!(is_a64_br_reg(0xd61f0000));
    assert!(!is_a64_br_reg(0xd65f03c0));
    assert!(!is_a64_br_reg(A64_NOP));
}

#[test]
fn detectors_recognize_unconditional_branch() {
    assert!(is_a64_b_uncond_imm(0x14000400));
    assert!(is_a64_b_uncond_imm(0x17fffc00));
    assert!(!is_a64_b_uncond_imm(A64_NOP));
    // BL shares the low 26 bits but its top six bits are 100101.
    assert!(!is_a64_b_uncond_imm(0x94000400));
    // CBZ does not match either.
    assert!(!is_a64_b_uncond_imm(0xb4000400));
}

#[test]
fn append_instruction_is_little_endian() {
    let mut code: Vec<u8> = Vec::new();
    append_instruction(&mut code, 0x12345678);
    assert_eq!(code, vec![0x78, 0x56, 0x34, 0x12]);
    append_instruction(&mut code, A64_NOP);
    assert_eq!(code, vec![0x78, 0x56, 0x34, 0x12, 0x1f, 0x20, 0x03, 0xd5]);
}

#[test]
fn write_instruction_advances_cursor() {
    let mut buf: Vec<u8> = vec![0xaa; 8];
    let mut cursor: usize = 0;
    write_instruction(&mut buf, &mut cursor, 0x11223344);
    assert_eq!(cursor, 4);
    assert_eq!(buf, vec![0x44, 0x33, 0x22, 0x11, 0xaa, 0xaa, 0xaa, 0xaa]);
    write_instruction(&mut buf, &mut cursor, 0xd65f03c0);
    assert_eq!(cursor, 8);
    assert_eq!(buf, vec![0x44, 0x33, 0x22, 0x11, 0xc0, 0x03, 0x5f, 0xd6]);
}

#[test]
fn read_word_reads_little_endian() {
    let v: Vec<u8> = vec![0x00, 0x04, 0x00, 0x14, 0x1f, 0x20, 0x03, 0xd5];
    assert_eq!(read_word(&v, 0), 0x14000400);
    assert_eq!(read_word(&v, 1), A64_NOP);
}
