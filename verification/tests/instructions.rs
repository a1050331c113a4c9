//! The ARMv7-A instruction builders produce the exact encodings.

use probe_rs::armv7a::{build_bx, build_ldc, build_mcr, build_mov, build_mrc, build_mrs, build_stc};

#[test]
fn gen_mcr_instruction() {
    let instr = build_mcr(14, 0, 2, 1, 2, 3);

    // MCR p14, 0, r2, c1, c2, 3
    assert_eq!(0xEE012E72, instr);
}

#[test]
fn gen_mrc_instruction() {
    let instr = build_mrc(14, 0, 2, 1, 2, 3);

    // MRC p14, 0, r2, c1, c2, 3
    assert_eq!(0xEE112E72, instr);
}

#[test]
fn gen_mov_instruction() {
    let instr = build_mov(2, 15);

    // MOV r2, pc
    assert_eq!(0xE1A0200F, instr);
}

#[test]
fn gen_bx_instruction() {
    let instr = build_bx(2);

    // BX r2
    assert_eq!(0xE12FFF12, instr);
}

#[test]
fn gen_ldc_instruction() {
    let instr = build_ldc(14, 5, 2, 4);

    // LDC p14, c5, [r2], #4
    assert_eq!(0xECB25E01, instr);
}

#[test]
fn gen_stc_instruction() {
    let instr = build_stc(14, 5, 2, 4);

    // STC p14, c5, [r2], #4
    assert_eq!(0xECA25E01, instr);
}

#[test]
fn gen_mrs_instruction() {
    let instr = build_mrs(2);

    // MRS r2, CPSR
    assert_eq!(0xE10F2000, instr);
}
