use injectorpp::a64_patch::{build_abs_jump_trampoline, build_branch_patch,
    build_long_jump_patch, build_return_bool_trampoline, plan_replace_function,
    plan_return_boolean};
use injectorpp::lifecycle::PatchError;

#[test]
fn abs_jump_trampoline_loads_target_into_x9() {
    let code = build_abs_jump_trampoline(0x0000000123456789);
    assert_eq!(code.len(), 20);
    assert_eq!(
        code,
        vec![
            0x29, 0xf1, 0x8c, 0xd2, // MOVZ X9, #0x6789
            0xa9, 0x68, 0xa4, 0xf2, // MOVK X9, #0x2345, LSL #16
            0x29, 0x00, 0xc0, 0xf2, // MOVK X9, #0x0001, LSL #32
            0x09, 0x00, 0xe0, 0xf2, // MOVK X9, #0x0000, LSL #48
            0x20, 0x01, 0x1f, 0xd6, // BR X9
        ]
    );
}

#[test]
fn return_bool_trampoline_moves_value_and_returns() {
    let t = build_return_bool_trampoline(true);
    assert_eq!(t, vec![0x20, 0x00, 0x80, 0x52, 0xc0, 0x03, 0x5f, 0xd6]);
    let f = build_return_bool_trampoline(false);
    assert_eq!(f, vec![0x00, 0x00, 0x80, 0x52, 0xc0, 0x03, 0x5f, 0xd6]);
}

#[test]
fn branch_patch_is_b_plus_nops() {
    let p = build_branch_patch(0x1000, 0x2000).unwrap();
    assert_eq!(
        p,
        vec![
            0x00, 0x04, 0x00, 0x14, // B +0x400 words
            0x1f, 0x20, 0x03, 0xd5, // NOP
            0x1f, 0x20, 0x03, 0xd5, // NOP
        ]
    );
}

#[test]
fn branch_patch_encodes_backward_offsets() {
    let p = build_branch_patch(0x2000, 0x1000).unwrap();
    assert_eq!(&p[0..4], &[0x00, 0xfc, 0xff, 0x17]);
}

#[test]
fn branch_patch_range_boundaries() {
    // +0x2000000 words is one past the largest encodable offset.
    assert_eq!(build_branch_patch(0, 0x8000000), Err(PatchError::BranchOutOfRange));
    assert!(build_branch_patch(0, 0x7fffffc).is_ok());
    // -0x2000000 words is the smallest encodable offset.
    assert!(build_branch_patch(0x8000000, 0).is_ok());
    assert_eq!(build_branch_patch(0x8000004, 0), Err(PatchError::BranchOutOfRange));
}

#[test]
fn long_jump_patch_prefers_short_branch() {
    let short = build_long_jump_patch(0x1000, 0x2000).unwrap();
    assert_eq!(short, build_branch_patch(0x1000, 0x2000).unwrap());
}

#[test]
fn long_jump_patch_uses_adrp_beyond_branch_reach() {
    let p = build_long_jump_patch(0x10000000, 0x30000124).unwrap();
    assert_eq!(
        p,
        vec![
            0x09, 0x00, 0x10, 0x90, // ADRP X9, #+0x20000 pages
            0x29, 0x91, 0x04, 0x91, // ADD X9, X9, #0x124
            0x20, 0x01, 0x1f, 0xd6, // BR X9
        ]
    );
}

#[test]
fn long_jump_patch_encodes_negative_page_delta() {
    let p = build_long_jump_patch(0x30000000, 0x10000000).unwrap();
    assert_eq!(&p[0..4], &[0x09, 0x00, 0xf0, 0x90]);
    assert_eq!(&p[4..8], &[0x29, 0x01, 0x00, 0x91]);
}

#[test]
fn long_jump_patch_range_boundaries() {
    assert!(build_long_jump_patch(0, 0xfffff000).is_ok());
    assert_eq!(build_long_jump_patch(0, 0x100000000), Err(PatchError::BranchOutOfRange));
}

#[test]
fn replace_plan_carries_patch_and_trampoline() {
    let window: Vec<u8> = (0..12u8).collect();
    let plan = plan_replace_function(0x1000, &window, 0x0000000123456789, 0x2000).unwrap();
    assert_eq!(plan.func_addr, 0x1000);
    assert_eq!(plan.patch_size, 12);
    assert_eq!(plan.original_bytes, window);
    assert_eq!(plan.patch_bytes, build_branch_patch(0x1000, 0x2000).unwrap());
    assert_eq!(plan.trampoline_addr, 0x2000);
    assert_eq!(plan.trampoline_size, 20);
    assert_eq!(plan.trampoline_bytes, build_abs_jump_trampoline(0x0000000123456789));
}

#[test]
fn replace_plan_refuses_single_ret_function() {
    // A function whose compiled body is a single RET.
    let mut window: Vec<u8> = vec![0xc0, 0x03, 0x5f, 0xd6];
    window.extend_from_slice(&[0x1f, 0x20, 0x03, 0xd5, 0x1f, 0x20, 0x03, 0xd5]);
    let r = plan_replace_function(0x1000, &window, 0x5000, 0x2000);
    assert_eq!(r.unwrap_err(), PatchError::UnsafeTarget { offset: 0 });
}

#[test]
fn replace_plan_refuses_out_of_reach_trampoline() {
    let window: Vec<u8> = (0..12u8).collect();
    let r = plan_replace_function(0x1000, &window, 0x5000, 0x9001000);
    assert_eq!(r.unwrap_err(), PatchError::BranchOutOfRange);
}

#[test]
fn return_boolean_plan_carries_bool_trampoline() {
    let window: Vec<u8> = (0..12u8).collect();
    let plan = plan_return_boolean(0x1000, &window, false, 0x2000).unwrap();
    assert_eq!(plan.patch_size, 12);
    assert_eq!(plan.trampoline_size, 8);
    assert_eq!(plan.trampoline_bytes, build_return_bool_trampoline(false));
    assert_eq!(plan.patch_bytes, build_branch_patch(0x1000, 0x2000).unwrap());
}
