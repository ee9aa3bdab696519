//! x86_64 patch strategies: trampoline construction and the prologue
//! patch.
//!
//! The patch window is the five bytes of `JMP rel32` (`E9` followed by
//! a little-endian signed 32-bit displacement from the end of the
//! instruction).  The replacing trampoline loads the 64-bit target
//! into `R10` (a caller-saved scratch register that carries no
//! argument) with `MOV R10, imm64` and jumps with `JMP R10`.  The
//! boolean trampoline is `MOV EAX, imm32` then `RET`.  No preflight is
//! performed on x86_64: a five-byte prologue rewrite is safe for any
//! function whose first basic block is at least five bytes long, which
//! the caller is responsible for.

use vstd::prelude::*;

use crate::lifecycle::{PatchError, PatchPlan};
use crate::image::copy_window;
use crate::words::{append_instruction, lemma_u32_le_at_mid, u32_le_at, word_bytes};

verus! {

/// Length of the x86_64 patch window: one `JMP rel32`.
pub const X64_PATCH_SIZE: usize = 5;

/// Size of the replacing trampoline: `MOV R10, imm64; JMP R10`.
pub const X64_EXEC_TRAMPOLINE_SIZE: usize = 13;

/// Size of the boolean trampoline: `MOV EAX, imm32; RET`.
pub const X64_BOOL_TRAMPOLINE_SIZE: usize = 6;

/// The eight little-endian bytes of a 64-bit immediate.
pub open spec fn le64_bytes(v: u64) -> Seq<u8> {
    word_bytes((v & 0xffffffff) as u32) + word_bytes((v >> 32u64) as u32)
}

/// The signed displacement of the jump: from the end of the five-byte
/// instruction at `src_addr` to `dst_addr`.
pub open spec fn rel32_displacement(src_addr: u64, dst_addr: u64) -> int {
    dst_addr - src_addr - 5
}

/// Whether that displacement fits a signed 32-bit field.
pub open spec fn in_rel32_range(src_addr: u64, dst_addr: u64) -> bool {
    -0x80000000 <= rel32_displacement(src_addr, dst_addr) < 0x80000000
}

/// The unsigned 32-bit field that encodes the displacement (two's
/// complement).
pub open spec fn rel32_field(src_addr: u64, dst_addr: u64) -> u32
    recommends
        in_rel32_range(src_addr, dst_addr),
{
    if rel32_displacement(src_addr, dst_addr) >= 0 {
        rel32_displacement(src_addr, dst_addr) as u32
    } else {
        (rel32_displacement(src_addr, dst_addr) + 0x100000000) as u32
    }
}

/// The signed displacement a 32-bit field stands for.
pub open spec fn rel32_signed(field: u32) -> int {
    if field >= 0x80000000 {
        field - 0x100000000
    } else {
        field as int
    }
}

/// The prologue patch: `JMP rel32` from `src_addr` to `dst_addr`.
pub open spec fn jmp_rel32_patch_bytes(src_addr: u64, dst_addr: u64) -> Seq<u8> {
    seq![0xe9u8] + word_bytes(rel32_field(src_addr, dst_addr))
}

/// The replacing trampoline: `MOV R10, imm64; JMP R10`.
pub open spec fn x64_abs_jump_trampoline_bytes(target: u64) -> Seq<u8> {
    seq![0x49u8, 0xbau8] + le64_bytes(target) + seq![0x41u8, 0xffu8, 0xe2u8]
}

/// The boolean trampoline: `MOV EAX, imm32; RET`.
pub open spec fn x64_return_bool_trampoline_bytes(value: bool) -> Seq<u8> {
    seq![0xb8u8] + word_bytes(if value { 1u32 } else { 0u32 }) + seq![0xc3u8]
}

/// Encoding the displacement and reading it back is the identity: the
/// installed jump lands exactly on its destination.
pub proof fn lemma_rel32_round_trip(src_addr: u64, dst_addr: u64)
    requires
        in_rel32_range(src_addr, dst_addr),
    ensures
        src_addr + 5 + rel32_signed(rel32_field(src_addr, dst_addr)) == dst_addr,
{
}

/// An in-range jump lies within the x86_64 branch reach of 2 GiB (to
/// byte precision: the displacement is counted from the end of the
/// five-byte instruction) in either direction.
pub proof fn lemma_rel32_within_reach(src_addr: u64, dst_addr: u64)
    requires
        in_rel32_range(src_addr, dst_addr),
    ensures
        dst_addr >= src_addr ==> dst_addr - src_addr < 0x80000000 + 5,
        dst_addr < src_addr ==> src_addr - dst_addr <= 0x80000000 - 5,
{
}

/// The two little-endian halves the trampoline stores compose to
/// exactly the target address.
pub proof fn lemma_le64_loads_target(target: u64)
    ensures
        (target & 0xffffffff) | ((target >> 32u64) << 32u64) == target,
{
    assert((target & 0xffffffff) | ((target >> 32u64) << 32u64) == target) by (bit_vector);
}

/// Appends the eight little-endian bytes of a 64-bit immediate.
fn append_le64(code: &mut Vec<u8>, v: u64)
    ensures
        final(code)@ == old(code)@ + le64_bytes(v),
{
    proof {
        assert(v & 0xffffffff < 0x100000000 && v >> 32u64 < 0x100000000) by (bit_vector);
    }
    append_instruction(code, (v & 0xffffffff) as u32);
    append_instruction(code, (v >> 32u64) as u32);
    proof {
        assert(code@ =~= old(code)@ + le64_bytes(v));
    }
}

/// The immediate an x86_64 absolute-jump trampoline loads: the eight
/// little-endian bytes after the two-byte `MOV R10` opcode.
pub open spec fn x64_abs_jump_target_of(bytes: Seq<u8>) -> u64
    recommends
        bytes.len() >= 10,
{
    (u32_le_at(bytes, 2) as u64) | ((u32_le_at(bytes, 6) as u64) << 32u64)
}

/// Builds the replacing trampoline for `target`: the emitted code
/// loads exactly `target` before the indirect jump.
pub fn build_x64_abs_jump_trampoline(target: u64) -> (r: Vec<u8>)
    ensures
        r@.len() == X64_EXEC_TRAMPOLINE_SIZE,
        r@ == x64_abs_jump_trampoline_bytes(target),
        x64_abs_jump_target_of(r@) == target,
{
    let mut code: Vec<u8> = Vec::new();
    code.push(0x49);
    code.push(0xba);
    append_le64(&mut code, target);
    code.push(0x41);
    code.push(0xff);
    code.push(0xe2);
    proof {
        assert(code@ =~= x64_abs_jump_trampoline_bytes(target));
        assert(target & 0xffffffff < 0x100000000 && target >> 32u64 < 0x100000000)
            by (bit_vector);
        let pre = seq![0x49u8, 0xbau8];
        let lo = word_bytes((target & 0xffffffff) as u32);
        let hi = word_bytes((target >> 32u64) as u32);
        let post = seq![0x41u8, 0xffu8, 0xe2u8];
        assert(code@ =~= pre + lo + (hi + post));
        lemma_u32_le_at_mid(pre, (target & 0xffffffff) as u32, hi + post);
        assert(code@ =~= (pre + lo) + hi + post);
        lemma_u32_le_at_mid(pre + lo, (target >> 32u64) as u32, post);
        lemma_le64_loads_target(target);
        assert(x64_abs_jump_target_of(code@) == target);
    }
    code
}

/// Builds the boolean trampoline for `value`.
pub fn build_x64_return_bool_trampoline(value: bool) -> (r: Vec<u8>)
    ensures
        r@.len() == X64_BOOL_TRAMPOLINE_SIZE,
        r@ == x64_return_bool_trampoline_bytes(value),
{
    let mut code: Vec<u8> = Vec::new();
    code.push(0xb8);
    append_instruction(&mut code, if value { 1 } else { 0 });
    code.push(0xc3);
    proof {
        assert(code@ =~= x64_return_bool_trampoline_bytes(value));
    }
    code
}

/// Builds the prologue patch for a function at `src_addr` jumping to
/// `dst_addr`, refusing a displacement that does not fit the signed
/// 32-bit field.
pub fn build_jmp_rel32_patch(src_addr: u64, dst_addr: u64) -> (r: Result<Vec<u8>, PatchError>)
    ensures
        r is Ok <==> in_rel32_range(src_addr, dst_addr),
        r matches Ok(p) ==> {
            &&& p@.len() == X64_PATCH_SIZE
            &&& p@ == jmp_rel32_patch_bytes(src_addr, dst_addr)
            &&& src_addr + 5 + rel32_signed(rel32_field(src_addr, dst_addr)) == dst_addr
        },
        r matches Err(e) ==> e == PatchError::BranchOutOfRange,
{
    let rel: i128 = dst_addr as i128 - src_addr as i128 - 5;
    if rel < -0x80000000 || rel >= 0x80000000 {
        return Err(PatchError::BranchOutOfRange);
    }
    let field: u32 = if rel >= 0 {
        rel as u32
    } else {
        (rel + 0x100000000) as u32
    };
    let mut patch: Vec<u8> = Vec::new();
    patch.push(0xe9);
    append_instruction(&mut patch, field);
    proof {
        assert(patch@ =~= jmp_rel32_patch_bytes(src_addr, dst_addr));
        lemma_rel32_round_trip(src_addr, dst_addr);
    }
    Ok(patch)
}

/// Plans the patch that makes calling the function at `src_addr`
/// transfer control to `target_addr` on x86_64: builds the trampoline
/// code for the allocation at `tramp_addr` and the prologue jump to
/// it.
pub fn plan_replace_function_x64(src_addr: u64, window: &Vec<u8>, target_addr: u64, tramp_addr:
    u64) -> (r: Result<PatchPlan, PatchError>)
    requires
        window@.len() == X64_PATCH_SIZE,
    ensures
        r is Ok <==> in_rel32_range(src_addr, tramp_addr),
        r matches Ok(p) ==> {
            &&& p.wf()
            &&& p.func_addr == src_addr
            &&& p.original_bytes@ == window@
            &&& p.patch_size == X64_PATCH_SIZE
            &&& p.patch_bytes@ == jmp_rel32_patch_bytes(src_addr, tramp_addr)
            &&& p.trampoline_addr == tramp_addr
            &&& p.trampoline_size == X64_EXEC_TRAMPOLINE_SIZE
            &&& p.trampoline_bytes@ == x64_abs_jump_trampoline_bytes(target_addr)
        },
        r matches Err(e) ==> e == PatchError::BranchOutOfRange,
        r is Ok && tramp_addr >= src_addr ==> tramp_addr - src_addr < 0x80000005,
        r is Ok && tramp_addr < src_addr ==> src_addr - tramp_addr <= 0x7ffffffb,
{
    let trampoline_bytes = build_x64_abs_jump_trampoline(target_addr);
    let patch_bytes = match build_jmp_rel32_patch(src_addr, tramp_addr) {
        Ok(p) => p,
        Err(e) => {
            return Err(e);
        },
    };
    let original_bytes = copy_window(window, 0, X64_PATCH_SIZE);
    proof {
        assert(window@.subrange(0, X64_PATCH_SIZE as int) =~= window@);
        lemma_rel32_within_reach(src_addr, tramp_addr);
    }
    Ok(
        PatchPlan {
            func_addr: src_addr,
            original_bytes,
            patch_size: X64_PATCH_SIZE,
            patch_bytes,
            trampoline_addr: tramp_addr,
            trampoline_size: X64_EXEC_TRAMPOLINE_SIZE,
            trampoline_bytes,
        },
    )
}

/// Plans the patch that makes calling the function at `src_addr`
/// return the boolean `value` on x86_64.
pub fn plan_return_boolean_x64(src_addr: u64, window: &Vec<u8>, value: bool, tramp_addr: u64)
    -> (r: Result<PatchPlan, PatchError>)
    requires
        window@.len() == X64_PATCH_SIZE,
    ensures
        r is Ok <==> in_rel32_range(src_addr, tramp_addr),
        r matches Ok(p) ==> {
            &&& p.wf()
            &&& p.func_addr == src_addr
            &&& p.original_bytes@ == window@
            &&& p.patch_size == X64_PATCH_SIZE
            &&& p.patch_bytes@ == jmp_rel32_patch_bytes(src_addr, tramp_addr)
            &&& p.trampoline_addr == tramp_addr
            &&& p.trampoline_size == X64_BOOL_TRAMPOLINE_SIZE
            &&& p.trampoline_bytes@ == x64_return_bool_trampoline_bytes(value)
        },
        r matches Err(e) ==> e == PatchError::BranchOutOfRange,
        r is Ok && tramp_addr >= src_addr ==> tramp_addr - src_addr < 0x80000005,
        r is Ok && tramp_addr < src_addr ==> src_addr - tramp_addr <= 0x7ffffffb,
{
    let trampoline_bytes = build_x64_return_bool_trampoline(value);
    let patch_bytes = match build_jmp_rel32_patch(src_addr, tramp_addr) {
        Ok(p) => p,
        Err(e) => {
            return Err(e);
        },
    };
    let original_bytes = copy_window(window, 0, X64_PATCH_SIZE);
    proof {
        assert(window@.subrange(0, X64_PATCH_SIZE as int) =~= window@);
        lemma_rel32_within_reach(src_addr, tramp_addr);
    }
    Ok(
        PatchPlan {
            func_addr: src_addr,
            original_bytes,
            patch_size: X64_PATCH_SIZE,
            patch_bytes,
            trampoline_addr: tramp_addr,
            trampoline_size: X64_BOOL_TRAMPOLINE_SIZE,
            trampoline_bytes,
        },
    )
}

} // verus!
