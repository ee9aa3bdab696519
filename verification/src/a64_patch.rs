//! AArch64 patch strategies: trampoline construction and the prologue
//! patch.
//!
//! The replacing trampoline is 20 bytes: `MOVZ`/`MOVK` load the
//! 64-bit target into `X9` (an IP-scratch register under the ABI, so
//! nothing needs saving) and `BR X9` branches to it.  The boolean
//! trampoline is 8 bytes: `MOVZ W0, #v` then `RET X30`.  The prologue
//! patch is one `B imm26` to the trampoline followed by two `NOP`s;
//! its signed word offset must fit in 26 bits, which the near
//! allocator's reach guarantees.

use vstd::prelude::*;

use crate::a64::{A64_NOP, add_imm12_field, add_imm12_word, adrp_page_delta, adrp_word,
    b_offset_words, b_word, br_word, emit_add_imm12, emit_adrp, emit_b, emit_br, emit_movk_x,
    emit_movz_w, emit_movz_x, emit_ret, is_br_word, is_ret_word, lemma_mov_imm16_round_trip,
    mov_imm16_field, movk_x_word, movz_w_word, movz_x_word, ret_word};
use crate::image::copy_window;
use crate::lifecycle::{PatchError, PatchPlan};
use crate::preflight::{Verdict, preflight_patch_window, window_safe, word_refused_at};
use crate::words::{append_instruction, lemma_u32_le_at_mid, word_at, word_bytes,
    write_instruction};

verus! {

/// Length of the AArch64 patch window: three instructions.
pub const A64_PATCH_SIZE: usize = 12;

/// Size of the replacing trampoline: five instructions.
pub const A64_EXEC_TRAMPOLINE_SIZE: usize = 20;

/// Size of the boolean trampoline: two instructions.
pub const A64_BOOL_TRAMPOLINE_SIZE: usize = 8;

/// The words of the replacing trampoline: load `target` into `X9`
/// sixteen bits at a time, then branch to it.
pub open spec fn abs_jump_trampoline_bytes(target: u64) -> Seq<u8> {
    word_bytes(movz_x_word(9, (target & 0xffff) as u32, 0)) + word_bytes(
        movk_x_word(9, ((target >> 16u64) & 0xffff) as u32, 1),
    ) + word_bytes(movk_x_word(9, ((target >> 32u64) & 0xffff) as u32, 2)) + word_bytes(
        movk_x_word(9, ((target >> 48u64) & 0xffff) as u32, 3),
    ) + word_bytes(br_word(9))
}

/// The bytes of the boolean trampoline: `MOVZ W0, #v`, `RET X30`.
pub open spec fn return_bool_trampoline_bytes(value: bool) -> Seq<u8> {
    word_bytes(movz_w_word(0, if value { 1u32 } else { 0u32 })) + word_bytes(ret_word(30))
}

/// The signed word offset of the branch from `func_addr` to
/// `jit_addr`.
pub open spec fn b_offset(func_addr: u64, jit_addr: u64) -> int {
    (jit_addr - func_addr) / 4
}

/// Whether that offset fits the signed 26-bit field of `B imm26`.
pub open spec fn in_b_range(func_addr: u64, jit_addr: u64) -> bool {
    -0x2000000 <= b_offset(func_addr, jit_addr) < 0x2000000
}

/// The prologue patch: `B imm26` to the trampoline, padded with two
/// `NOP`s to the patch window.
pub open spec fn branch_patch_bytes(func_addr: u64, jit_addr: u64) -> Seq<u8> {
    word_bytes(b_word(b_offset(func_addr, jit_addr))) + word_bytes(A64_NOP) + word_bytes(A64_NOP)
}

/// The address an absolute-jump trampoline loads into `X9`: the
/// imm16 fields of its four move words, composed low to high.
pub open spec fn abs_jump_target_of(bytes: Seq<u8>) -> u64
    recommends
        bytes.len() >= 16,
{
    (mov_imm16_field(word_at(bytes, 0)) as u64) | ((mov_imm16_field(word_at(bytes, 1)) as u64)
        << 16u64) | ((mov_imm16_field(word_at(bytes, 2)) as u64) << 32u64) | ((mov_imm16_field(
        word_at(bytes, 3),
    ) as u64) << 48u64)
}

/// The four 16-bit pieces the trampoline loads compose to exactly the
/// target address.
pub proof fn lemma_abs_jump_loads_target(target: u64)
    ensures
        (target & 0xffff) | (((target >> 16u64) & 0xffff) << 16u64) | (((target >> 32u64)
            & 0xffff) << 32u64) | (((target >> 48u64) & 0xffff) << 48u64) == target,
{
    assert((target & 0xffff) | (((target >> 16u64) & 0xffff) << 16u64) | (((target >> 32u64)
        & 0xffff) << 32u64) | (((target >> 48u64) & 0xffff) << 48u64) == target) by (bit_vector);
}

/// An in-range branch lies within the AArch64 branch reach of 128 MiB
/// in either direction.
pub proof fn lemma_b_range_within_reach(func_addr: u64, jit_addr: u64)
    requires
        func_addr % 4 == 0,
        jit_addr % 4 == 0,
        in_b_range(func_addr, jit_addr),
    ensures
        jit_addr >= func_addr ==> jit_addr - func_addr <= 0x8000000,
        jit_addr < func_addr ==> func_addr - jit_addr <= 0x8000000,
{
    let diff = jit_addr - func_addr;
    assert(diff % 4 == 0);
    assert(diff == 4 * (diff / 4));
    assert(-0x8000000 <= diff < 0x8000000);
}

/// Builds the replacing trampoline for `target`: the emitted code
/// loads exactly `target` and ends in an indirect branch.
pub fn build_abs_jump_trampoline(target: u64) -> (r: Vec<u8>)
    ensures
        r@.len() == A64_EXEC_TRAMPOLINE_SIZE,
        r@ == abs_jump_trampoline_bytes(target),
        abs_jump_target_of(r@) == target,
        is_br_word(word_at(r@, 4)),
{
    proof {
        assert(target & 0xffff < 0x10000 && (target >> 16u64) & 0xffff < 0x10000 && (target
            >> 32u64) & 0xffff < 0x10000 && (target >> 48u64) & 0xffff < 0x10000) by (bit_vector);
    }
    let movz = emit_movz_x(9, (target & 0xffff) as u32, 0);
    let movk1 = emit_movk_x(9, ((target >> 16u64) & 0xffff) as u32, 1);
    let movk2 = emit_movk_x(9, ((target >> 32u64) & 0xffff) as u32, 2);
    let movk3 = emit_movk_x(9, ((target >> 48u64) & 0xffff) as u32, 3);
    let br = emit_br(9);
    let mut asm_code: Vec<u8> = Vec::new();
    append_instruction(&mut asm_code, movz);
    append_instruction(&mut asm_code, movk1);
    append_instruction(&mut asm_code, movk2);
    append_instruction(&mut asm_code, movk3);
    append_instruction(&mut asm_code, br);
    proof {
        assert(asm_code@ =~= abs_jump_trampoline_bytes(target));
        let b0 = word_bytes(movz);
        let b1 = word_bytes(movk1);
        let b2 = word_bytes(movk2);
        let b3 = word_bytes(movk3);
        let b4 = word_bytes(br);
        assert(asm_code@ =~= Seq::<u8>::empty() + b0 + (b1 + b2 + b3 + b4));
        lemma_u32_le_at_mid(Seq::<u8>::empty(), movz, b1 + b2 + b3 + b4);
        assert(asm_code@ =~= b0 + b1 + (b2 + b3 + b4));
        lemma_u32_le_at_mid(b0, movk1, b2 + b3 + b4);
        assert(asm_code@ =~= (b0 + b1) + b2 + (b3 + b4));
        lemma_u32_le_at_mid(b0 + b1, movk2, b3 + b4);
        assert(asm_code@ =~= (b0 + b1 + b2) + b3 + b4);
        lemma_u32_le_at_mid(b0 + b1 + b2, movk3, b4);
        assert(asm_code@ =~= (b0 + b1 + b2 + b3) + b4 + Seq::<u8>::empty());
        lemma_u32_le_at_mid(b0 + b1 + b2 + b3, br, Seq::<u8>::empty());
        lemma_mov_imm16_round_trip(9, (target & 0xffff) as u32, 0);
        lemma_mov_imm16_round_trip(9, ((target >> 16u64) & 0xffff) as u32, 1);
        lemma_mov_imm16_round_trip(9, ((target >> 32u64) & 0xffff) as u32, 2);
        lemma_mov_imm16_round_trip(9, ((target >> 48u64) & 0xffff) as u32, 3);
        lemma_abs_jump_loads_target(target);
        crate::a64::lemma_ret_br_detected(9);
        assert(abs_jump_target_of(asm_code@) == target);
    }
    asm_code
}

/// Builds the boolean trampoline for `value`: the emitted code moves
/// exactly the boolean into the return register and returns.
pub fn build_return_bool_trampoline(value: bool) -> (r: Vec<u8>)
    ensures
        r@.len() == A64_BOOL_TRAMPOLINE_SIZE,
        r@ == return_bool_trampoline_bytes(value),
        mov_imm16_field(word_at(r@, 0)) == if value {
            1u32
        } else {
            0u32
        },
        is_ret_word(word_at(r@, 1)),
{
    let movz = emit_movz_w(0, if value { 1 } else { 0 });
    let ret = emit_ret(30);
    let mut asm_code: Vec<u8> = vec![0u8; 8];
    let mut cursor: usize = 0;
    write_instruction(&mut asm_code, &mut cursor, movz);
    write_instruction(&mut asm_code, &mut cursor, ret);
    proof {
        assert(asm_code@ =~= return_bool_trampoline_bytes(value));
        assert(asm_code@ =~= Seq::<u8>::empty() + word_bytes(movz) + word_bytes(ret));
        lemma_u32_le_at_mid(Seq::<u8>::empty(), movz, word_bytes(ret));
        assert(asm_code@ =~= word_bytes(movz) + word_bytes(ret) + Seq::<u8>::empty());
        lemma_u32_le_at_mid(word_bytes(movz), ret, Seq::<u8>::empty());
        lemma_mov_imm16_round_trip(0, if value { 1u32 } else { 0u32 }, 0);
        crate::a64::lemma_ret_br_detected(30);
    }
    asm_code
}

/// Builds the prologue patch for a function at `func_addr` whose
/// trampoline sits at `jit_addr`, refusing an offset that does not
/// fit the 26-bit branch field.  In a successful patch, the encoded
/// branch lands exactly on the trampoline.
pub fn build_branch_patch(func_addr: u64, jit_addr: u64) -> (r: Result<Vec<u8>, PatchError>)
    requires
        func_addr % 4 == 0,
        jit_addr % 4 == 0,
    ensures
        r is Ok <==> in_b_range(func_addr, jit_addr),
        r matches Ok(p) ==> {
            &&& p@.len() == A64_PATCH_SIZE
            &&& p@ == branch_patch_bytes(func_addr, jit_addr)
            &&& word_at(p@, 0) == b_word(b_offset(func_addr, jit_addr))
            &&& func_addr + 4 * b_offset_words(word_at(p@, 0)) == jit_addr
        },
        r matches Err(e) ==> e == PatchError::BranchOutOfRange,
{
    let fq = func_addr / 4;
    let jq = jit_addr / 4;
    let off: i128 = jq as i128 - fq as i128;
    proof {
        assert(func_addr == 4 * (func_addr as int / 4) && jit_addr == 4 * (jit_addr as int / 4));
        assert((4 * (jit_addr as int / 4) - 4 * (func_addr as int / 4)) / 4 == jit_addr as int / 4
            - func_addr as int / 4) by (nonlinear_arith);
        assert(off == b_offset(func_addr, jit_addr));
    }
    if off < -0x2000000 || off >= 0x2000000 {
        return Err(PatchError::BranchOutOfRange);
    }
    let branch = emit_b(off as i64);
    let mut patch: Vec<u8> = Vec::new();
    append_instruction(&mut patch, branch);
    append_instruction(&mut patch, A64_NOP);
    append_instruction(&mut patch, A64_NOP);
    proof {
        assert(patch@ =~= branch_patch_bytes(func_addr, jit_addr));
        crate::words::lemma_word_round_trip(branch);
        assert(word_at(patch@, 0) == word_at(word_bytes(branch), 0));
        assert(func_addr + 4 * b_offset_words(word_at(patch@, 0)) == jit_addr);
    }
    Ok(patch)
}

/// Re-patch after removal: once a patch's snapshot has been written
/// back, the region is byte-for-byte the one the first installation
/// found, so the re-read window is again safe and the branch offset
/// again fits — exactly the condition under which the planning
/// functions succeed, and their contracts pin the second plan to the
/// same patch, snapshot and trampoline bytes as the first.  This
/// composes over arbitrarily many install/remove cycles.
pub proof fn lemma_repatch_after_restore(mem: Seq<u8>, off: int, src_addr: u64, tramp_addr: u64)
    requires
        src_addr % 4 == 0,
        tramp_addr % 4 == 0,
        0 <= off,
        off + A64_PATCH_SIZE <= mem.len(),
        window_safe(mem.subrange(off, off + A64_PATCH_SIZE as int)),
        in_b_range(src_addr, tramp_addr),
    ensures
        ({
            let restored = crate::image::store_seq(
                crate::image::store_seq(mem, off, branch_patch_bytes(src_addr, tramp_addr)),
                off,
                mem.subrange(off, off + A64_PATCH_SIZE as int),
            );
            &&& restored == mem
            &&& restored.subrange(off, off + A64_PATCH_SIZE as int) == mem.subrange(
                off,
                off + A64_PATCH_SIZE as int,
            )
            &&& window_safe(restored.subrange(off, off + A64_PATCH_SIZE as int))
        }),
{
    assert(branch_patch_bytes(src_addr, tramp_addr).len() == A64_PATCH_SIZE);
    crate::image::lemma_restore_exact(mem, off, branch_patch_bytes(src_addr, tramp_addr));
}

/// The page distance from the function's page to the trampoline's.
pub open spec fn page_delta(func_addr: u64, jit_addr: u64) -> int {
    (jit_addr >> 12u64) - (func_addr >> 12u64)
}

/// Whether that distance fits the signed 21-bit `ADRP` immediate.
pub open spec fn in_adrp_range(func_addr: u64, jit_addr: u64) -> bool {
    -0x100000 <= page_delta(func_addr, jit_addr) < 0x100000
}

/// The long-jump prologue: `ADRP X9` to the trampoline's page, `ADD
/// X9` with its page offset, `BR X9`.
pub open spec fn long_jump_patch_bytes(func_addr: u64, jit_addr: u64) -> Seq<u8> {
    word_bytes(adrp_word(9, page_delta(func_addr, jit_addr))) + word_bytes(
        add_imm12_word(9, 9, (jit_addr & 0xfff) as u32),
    ) + word_bytes(br_word(9))
}

/// Builds the prologue patch in the long-jump style: one `B imm26`
/// padded with `NOP`s when the trampoline is within branch reach,
/// else `ADRP`/`ADD`/`BR` through `X9`, whose computed address is
/// exactly the trampoline.
pub fn build_long_jump_patch(func_addr: u64, jit_addr: u64) -> (r: Result<Vec<u8>, PatchError>)
    requires
        func_addr % 4 == 0,
        jit_addr % 4 == 0,
    ensures
        r is Ok <==> in_b_range(func_addr, jit_addr) || in_adrp_range(func_addr, jit_addr),
        r matches Ok(p) ==> p@.len() == A64_PATCH_SIZE,
        in_b_range(func_addr, jit_addr) ==> (r matches Ok(p) && p@ == branch_patch_bytes(
            func_addr,
            jit_addr,
        )),
        !in_b_range(func_addr, jit_addr) && in_adrp_range(func_addr, jit_addr) ==> (r matches Ok(
            p,
        ) && p@ == long_jump_patch_bytes(func_addr, jit_addr) && func_addr - func_addr % 0x1000
            + 0x1000 * adrp_page_delta(word_at(p@, 0)) + add_imm12_field(word_at(p@, 1))
            == jit_addr),
        r matches Err(e) ==> e == PatchError::BranchOutOfRange,
{
    match build_branch_patch(func_addr, jit_addr) {
        Ok(p) => {
            return Ok(p);
        },
        Err(_) => {},
    }
    proof {
        assert(func_addr >> 12u64 < 0x10000000000000 && jit_addr >> 12u64 < 0x10000000000000)
            by (bit_vector);
    }
    let pd: i64 = (jit_addr >> 12) as i64 - (func_addr >> 12) as i64;
    if pd < -0x100000 || pd >= 0x100000 {
        return Err(PatchError::BranchOutOfRange);
    }
    proof {
        assert(jit_addr & 0xfff < 0x1000) by (bit_vector);
    }
    let adrp = emit_adrp(9, pd);
    let add_lo = emit_add_imm12(9, 9, (jit_addr & 0xfff) as u32);
    let br = emit_br(9);
    let mut patch: Vec<u8> = Vec::new();
    append_instruction(&mut patch, adrp);
    append_instruction(&mut patch, add_lo);
    append_instruction(&mut patch, br);
    proof {
        assert(patch@ =~= long_jump_patch_bytes(func_addr, jit_addr));
        assert(patch@ =~= Seq::<u8>::empty() + word_bytes(adrp) + (word_bytes(add_lo)
            + word_bytes(br)));
        lemma_u32_le_at_mid(Seq::<u8>::empty(), adrp, word_bytes(add_lo) + word_bytes(br));
        assert(patch@ =~= word_bytes(adrp) + word_bytes(add_lo) + word_bytes(br));
        lemma_u32_le_at_mid(word_bytes(adrp), add_lo, word_bytes(br));
        assert(func_addr % 0x1000 == (func_addr & 0xfff) && func_addr == 0x1000 * (func_addr
            >> 12u64) + (func_addr & 0xfff)) by (bit_vector);
        assert(jit_addr % 0x1000 == (jit_addr & 0xfff) && jit_addr == 0x1000 * (jit_addr
            >> 12u64) + (jit_addr & 0xfff)) by (bit_vector);
        assert(func_addr - func_addr % 0x1000 + 0x1000 * adrp_page_delta(word_at(patch@, 0))
            + add_imm12_field(word_at(patch@, 1)) == jit_addr);
    }
    Ok(patch)
}

/// Plans the patch that makes calling the function at `src_addr`
/// transfer control to `target_addr`: preflights the window snapshot,
/// builds the trampoline code for the allocation at `tramp_addr`, and
/// builds the prologue patch.
pub fn plan_replace_function(src_addr: u64, window: &Vec<u8>, target_addr: u64, tramp_addr: u64)
    -> (r: Result<PatchPlan, PatchError>)
    requires
        src_addr % 4 == 0,
        tramp_addr % 4 == 0,
        window@.len() == A64_PATCH_SIZE,
    ensures
        r is Ok <==> window_safe(window@) && in_b_range(src_addr, tramp_addr),
        r matches Ok(p) ==> {
            &&& p.wf()
            &&& p.func_addr == src_addr
            &&& p.original_bytes@ == window@
            &&& p.patch_size == A64_PATCH_SIZE
            &&& p.patch_bytes@ == branch_patch_bytes(src_addr, tramp_addr)
            &&& p.trampoline_addr == tramp_addr
            &&& p.trampoline_size == A64_EXEC_TRAMPOLINE_SIZE
            &&& p.trampoline_bytes@ == abs_jump_trampoline_bytes(target_addr)
        },
        !window_safe(window@) ==> (r matches Err(PatchError::UnsafeTarget { offset })
            && offset % 4 == 0 && offset + 4 <= A64_PATCH_SIZE && word_refused_at(
            window@,
            offset as int / 4,
        ) && (forall|j: int| 0 <= j < offset as int / 4 ==> !word_refused_at(window@, j))),
        window_safe(window@) && !in_b_range(src_addr, tramp_addr) ==> r == Err::<
            PatchPlan,
            PatchError,
        >(PatchError::BranchOutOfRange),
        r is Ok && tramp_addr >= src_addr ==> tramp_addr - src_addr <= 0x8000000,
        r is Ok && tramp_addr < src_addr ==> src_addr - tramp_addr <= 0x8000000,
{
    match preflight_patch_window(window) {
        Verdict::Refuse { offset } => {
            return Err(PatchError::UnsafeTarget { offset });
        },
        Verdict::Proceed => {},
    }
    let trampoline_bytes = build_abs_jump_trampoline(target_addr);
    let patch_bytes = match build_branch_patch(src_addr, tramp_addr) {
        Ok(p) => p,
        Err(e) => {
            return Err(e);
        },
    };
    let original_bytes = copy_window(window, 0, A64_PATCH_SIZE);
    proof {
        assert(window@.subrange(0, A64_PATCH_SIZE as int) =~= window@);
        lemma_b_range_within_reach(src_addr, tramp_addr);
    }
    Ok(
        PatchPlan {
            func_addr: src_addr,
            original_bytes,
            patch_size: A64_PATCH_SIZE,
            patch_bytes,
            trampoline_addr: tramp_addr,
            trampoline_size: A64_EXEC_TRAMPOLINE_SIZE,
            trampoline_bytes,
        },
    )
}

/// Plans the patch that makes calling the function at `src_addr`
/// return the boolean `value` without executing any of it.
pub fn plan_return_boolean(src_addr: u64, window: &Vec<u8>, value: bool, tramp_addr: u64) -> (r:
    Result<PatchPlan, PatchError>)
    requires
        src_addr % 4 == 0,
        tramp_addr % 4 == 0,
        window@.len() == A64_PATCH_SIZE,
    ensures
        r is Ok <==> window_safe(window@) && in_b_range(src_addr, tramp_addr),
        r matches Ok(p) ==> {
            &&& p.wf()
            &&& p.func_addr == src_addr
            &&& p.original_bytes@ == window@
            &&& p.patch_size == A64_PATCH_SIZE
            &&& p.patch_bytes@ == branch_patch_bytes(src_addr, tramp_addr)
            &&& p.trampoline_addr == tramp_addr
            &&& p.trampoline_size == A64_BOOL_TRAMPOLINE_SIZE
            &&& p.trampoline_bytes@ == return_bool_trampoline_bytes(value)
        },
        !window_safe(window@) ==> (r matches Err(PatchError::UnsafeTarget { offset })
            && offset % 4 == 0 && offset + 4 <= A64_PATCH_SIZE && word_refused_at(
            window@,
            offset as int / 4,
        ) && (forall|j: int| 0 <= j < offset as int / 4 ==> !word_refused_at(window@, j))),
        window_safe(window@) && !in_b_range(src_addr, tramp_addr) ==> r == Err::<
            PatchPlan,
            PatchError,
        >(PatchError::BranchOutOfRange),
        r is Ok && tramp_addr >= src_addr ==> tramp_addr - src_addr <= 0x8000000,
        r is Ok && tramp_addr < src_addr ==> src_addr - tramp_addr <= 0x8000000,
{
    match preflight_patch_window(window) {
        Verdict::Refuse { offset } => {
            return Err(PatchError::UnsafeTarget { offset });
        },
        Verdict::Proceed => {},
    }
    let trampoline_bytes = build_return_bool_trampoline(value);
    let patch_bytes = match build_branch_patch(src_addr, tramp_addr) {
        Ok(p) => p,
        Err(e) => {
            return Err(e);
        },
    };
    let original_bytes = copy_window(window, 0, A64_PATCH_SIZE);
    proof {
        assert(window@.subrange(0, A64_PATCH_SIZE as int) =~= window@);
        lemma_b_range_within_reach(src_addr, tramp_addr);
    }
    Ok(
        PatchPlan {
            func_addr: src_addr,
            original_bytes,
            patch_size: A64_PATCH_SIZE,
            patch_bytes,
            trampoline_addr: tramp_addr,
            trampoline_size: A64_BOOL_TRAMPOLINE_SIZE,
            trampoline_bytes,
        },
    )
}

} // verus!
