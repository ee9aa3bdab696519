use injectorpp::preflight::{preflight_patch_window, Verdict};
use injectorpp::words::append_instruction;

const NOP: u32 = 0xd503201f;
const RET_X30: u32 = 0xd65f03c0;
const BR_X9: u32 = 0xd61f0120;
const B_FWD: u32 = 0x14000400;

fn window(words: [u32; 3]) -> Vec<u8> {
    let mut v: Vec<u8> = Vec::new();
    append_instruction(&mut v, words[0]);
    append_instruction(&mut v, words[1]);
    append_instruction(&mut v, words[2]);
    v
}

#[test]
fn preflight_accepts_plain_prologue() {
    let v = window([NOP, NOP, NOP]);
    assert_eq!(preflight_patch_window(&v), Verdict::Proceed);
}

#[test]
fn preflight_refuses_leading_ret() {
    // The compiled body of an empty function: a single RET.
    let v = window([RET_X30, NOP, NOP]);
    assert_eq!(preflight_patch_window(&v), Verdict::Refuse { offset: 0 });
}

#[test]
fn preflight_refuses_leading_br() {
    let v = window([BR_X9, NOP, NOP]);
    assert_eq!(preflight_patch_window(&v), Verdict::Refuse { offset: 0 });
}

#[test]
fn preflight_tolerates_veneer_at_entry() {
    // An unconditional B at the very start is a veneer, not a refusal.
    let v = window([B_FWD, NOP, NOP]);
    assert_eq!(preflight_patch_window(&v), Verdict::Proceed);
}

#[test]
fn preflight_tolerates_bl_in_window() {
    // BL is a call, not a non-fallthrough terminator: its top six
    // bits are 100101, so it is no unconditional B and no refusal.
    let v = window([NOP, 0x94000400, NOP]);
    assert_eq!(preflight_patch_window(&v), Verdict::Proceed);
}

#[test]
fn preflight_refuses_branch_past_entry() {
    let v = window([NOP, B_FWD, NOP]);
    assert_eq!(preflight_patch_window(&v), Verdict::Refuse { offset: 4 });
}

#[test]
fn preflight_refuses_terminator_in_last_word() {
    let v = window([NOP, NOP, RET_X30]);
    assert_eq!(preflight_patch_window(&v), Verdict::Refuse { offset: 8 });
    let v = window([NOP, NOP, BR_X9]);
    assert_eq!(preflight_patch_window(&v), Verdict::Refuse { offset: 8 });
}

#[test]
fn preflight_reports_first_offending_word() {
    let v = window([RET_X30, NOP, BR_X9]);
    assert_eq!(preflight_patch_window(&v), Verdict::Refuse { offset: 0 });
    let v = window([B_FWD, RET_X30, BR_X9]);
    assert_eq!(preflight_patch_window(&v), Verdict::Refuse { offset: 4 });
}
