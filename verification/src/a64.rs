//! Bit-exact encoders and detectors for the AArch64 instructions used by
//! the trampolines and prologue patches.
//!
//! Encoders produce the 32-bit instruction words for `MOVZ`, `MOVK`,
//! `BR Xn`, `RET Xn` and the unconditional `B imm26`.  Detectors decide,
//! for a given instruction word, whether it is a `RET`, a `BR Xn` or an
//! unconditional `B imm26`; the preflight validator is built on them.

use vstd::prelude::*;

verus! {

/// AArch64 `NOP`, used to pad the patch window.
pub const A64_NOP: u32 = 0xd503201f;

/// Instruction word of `MOVZ Xd, #imm16, LSL #(16*hw)`.
pub open spec fn movz_x_word(rd: u32, imm16: u32, hw: u32) -> u32 {
    0xd2800000u32 | (hw << 21u32) | (imm16 << 5u32) | rd
}

/// Instruction word of `MOVK Xd, #imm16, LSL #(16*hw)`.
pub open spec fn movk_x_word(rd: u32, imm16: u32, hw: u32) -> u32 {
    0xf2800000u32 | (hw << 21u32) | (imm16 << 5u32) | rd
}

/// Instruction word of `MOVZ Wd, #imm16` (32-bit form, shift 0).
pub open spec fn movz_w_word(rd: u32, imm16: u32) -> u32 {
    0x52800000u32 | (imm16 << 5u32) | rd
}

/// Instruction word of `BR Xn`.
pub open spec fn br_word(rn: u32) -> u32 {
    0xd61f0000u32 | (rn << 5u32)
}

/// Instruction word of `RET Xn`.
pub open spec fn ret_word(rn: u32) -> u32 {
    0xd65f0000u32 | (rn << 5u32)
}

/// The unsigned 26-bit immediate that encodes a signed word offset
/// (two's complement in 26 bits).
pub open spec fn imm26_of_offset(offset_words: int) -> u32
    recommends
        -0x2000000 <= offset_words < 0x2000000,
{
    if offset_words >= 0 {
        offset_words as u32
    } else {
        (offset_words + 0x4000000) as u32
    }
}

/// Instruction word of `B imm26` with the given signed word offset.
pub open spec fn b_word(offset_words: int) -> u32
    recommends
        -0x2000000 <= offset_words < 0x2000000,
{
    0x14000000u32 | imm26_of_offset(offset_words)
}

/// The unsigned 21-bit immediate that encodes a signed page delta
/// (two's complement in 21 bits).
pub open spec fn imm21_of_page_delta(page_delta: int) -> u32
    recommends
        -0x100000 <= page_delta < 0x100000,
{
    if page_delta >= 0 {
        page_delta as u32
    } else {
        (page_delta + 0x200000) as u32
    }
}

/// Instruction word of `ADRP Xd, #(page_delta * 4096)`: the low two
/// immediate bits sit at 30:29, the high nineteen at 23:5.
pub open spec fn adrp_word(rd: u32, page_delta: int) -> u32
    recommends
        rd < 32,
        -0x100000 <= page_delta < 0x100000,
{
    0x90000000u32 | ((imm21_of_page_delta(page_delta) & 3) << 29u32) | (((imm21_of_page_delta(
        page_delta,
    ) >> 2u32) & 0x7ffff) << 5u32) | rd
}

/// The signed page delta encoded in an `ADRP` instruction word.
pub open spec fn adrp_page_delta(w: u32) -> int {
    let imm21 = ((w >> 29u32) & 3) | (((w >> 5u32) & 0x7ffff) << 2u32);
    if imm21 >= 0x100000 {
        imm21 - 0x200000
    } else {
        imm21 as int
    }
}

/// Instruction word of `ADD Xd, Xn, #imm12`.
pub open spec fn add_imm12_word(rd: u32, rn: u32, imm12: u32) -> u32 {
    0x91000000u32 | (imm12 << 10u32) | (rn << 5u32) | rd
}

/// The 12-bit immediate field of an `ADD Xd, Xn, #imm12` word.
pub open spec fn add_imm12_field(w: u32) -> u32 {
    (w >> 10u32) & 0xfff
}

/// The 16-bit immediate field of a `MOVZ` or `MOVK` word.
pub open spec fn mov_imm16_field(w: u32) -> u32 {
    (w >> 5u32) & 0xffff
}

/// A word is a `RET Xn` when it matches base `0xd65f0000` under mask
/// `0xfffffc1f`.
pub open spec fn is_ret_word(w: u32) -> bool {
    w & 0xfffffc1f == 0xd65f0000
}

/// A word is a `BR Xn` when it matches base `0xd61f0000` under mask
/// `0xfffffc1f`.
pub open spec fn is_br_word(w: u32) -> bool {
    w & 0xfffffc1f == 0xd61f0000
}

/// A word is an unconditional `B imm26` when its top six bits are
/// `000101`.
pub open spec fn is_b_word(w: u32) -> bool {
    w & 0xfc000000 == 0x14000000
}

/// The signed word offset encoded in a `B imm26` instruction word.
pub open spec fn b_offset_words(w: u32) -> int {
    if w & 0x03ffffff >= 0x02000000 {
        (w & 0x03ffffff) - 0x04000000
    } else {
        (w & 0x03ffffff) as int
    }
}

/// Emits `MOVZ Xd, #imm16, LSL #(16*hw)`.
pub fn emit_movz_x(rd: u32, imm16: u32, hw: u32) -> (r: u32)
    requires
        rd < 32,
        imm16 < 0x10000,
        hw < 4,
    ensures
        r == movz_x_word(rd, imm16, hw),
{
    0xd2800000u32 | (hw << 21u32) | (imm16 << 5u32) | rd
}

/// Emits `MOVK Xd, #imm16, LSL #(16*hw)`.
pub fn emit_movk_x(rd: u32, imm16: u32, hw: u32) -> (r: u32)
    requires
        rd < 32,
        imm16 < 0x10000,
        hw < 4,
    ensures
        r == movk_x_word(rd, imm16, hw),
{
    0xf2800000u32 | (hw << 21u32) | (imm16 << 5u32) | rd
}

/// Emits `MOVZ Wd, #imm16` (32-bit form, shift 0).
pub fn emit_movz_w(rd: u32, imm16: u32) -> (r: u32)
    requires
        rd < 32,
        imm16 < 0x10000,
    ensures
        r == movz_w_word(rd, imm16),
{
    0x52800000u32 | (imm16 << 5u32) | rd
}

/// Emits `BR Xn`.
pub fn emit_br(rn: u32) -> (r: u32)
    requires
        rn < 32,
    ensures
        r == br_word(rn),
{
    0xd61f0000u32 | (rn << 5u32)
}

/// Emits `RET Xn`; register 30 gives the conventional `RET`.
pub fn emit_ret(rn: u32) -> (r: u32)
    requires
        rn < 32,
    ensures
        r == ret_word(rn),
{
    0xd65f0000u32 | (rn << 5u32)
}

/// Emits `B imm26` with the given signed word offset.
pub fn emit_b(offset_words: i64) -> (r: u32)
    requires
        -0x2000000 <= offset_words < 0x2000000,
    ensures
        r == b_word(offset_words as int),
        is_b_word(r),
        b_offset_words(r) == offset_words as int,
{
    let imm: u32 = if offset_words >= 0 {
        offset_words as u32
    } else {
        (offset_words + 0x4000000) as u32
    };
    proof {
        lemma_b_word_round_trip(offset_words as int);
    }
    0x14000000u32 | imm
}

/// Emits `ADRP Xd, #(page_delta * 4096)`.
pub fn emit_adrp(rd: u32, page_delta: i64) -> (r: u32)
    requires
        rd < 32,
        -0x100000 <= page_delta < 0x100000,
    ensures
        r == adrp_word(rd, page_delta as int),
        adrp_page_delta(r) == page_delta as int,
{
    let imm21: u32 = if page_delta >= 0 {
        page_delta as u32
    } else {
        (page_delta + 0x200000) as u32
    };
    proof {
        lemma_adrp_round_trip(rd, page_delta as int);
    }
    0x90000000u32 | ((imm21 & 3) << 29u32) | (((imm21 >> 2u32) & 0x7ffff) << 5u32) | rd
}

/// Emits `ADD Xd, Xn, #imm12`.
pub fn emit_add_imm12(rd: u32, rn: u32, imm12: u32) -> (r: u32)
    requires
        rd < 32,
        rn < 32,
        imm12 < 0x1000,
    ensures
        r == add_imm12_word(rd, rn, imm12),
        add_imm12_field(r) == imm12,
{
    proof {
        assert((0x91000000u32 | (imm12 << 10u32) | (rn << 5u32) | rd) >> 10u32 & 0xfff == imm12)
            by (bit_vector)
            requires
                rd < 32u32,
                rn < 32u32,
                imm12 < 0x1000u32,
        ;
    }
    0x91000000u32 | (imm12 << 10u32) | (rn << 5u32) | rd
}

/// Encoding a page delta into `ADRP` and reading it back is the
/// identity.
pub proof fn lemma_adrp_round_trip(rd: u32, page_delta: int)
    requires
        rd < 32,
        -0x100000 <= page_delta < 0x100000,
    ensures
        adrp_page_delta(adrp_word(rd, page_delta)) == page_delta,
{
    let imm = imm21_of_page_delta(page_delta);
    assert(imm < 0x200000);
    let w = 0x90000000u32 | ((imm & 3) << 29u32) | (((imm >> 2u32) & 0x7ffff) << 5u32) | rd;
    assert(((w >> 29u32) & 3) | (((w >> 5u32) & 0x7ffff) << 2u32) == imm) by (bit_vector)
        requires
            w == 0x90000000u32 | ((imm & 3) << 29u32) | (((imm >> 2u32) & 0x7ffff) << 5u32) | rd,
            rd < 32u32,
            imm < 0x200000u32,
    ;
}

/// Decides whether `w` is a `RET Xn` instruction.
pub fn is_a64_ret(w: u32) -> (r: bool)
    ensures
        r == is_ret_word(w),
{
    (w & 0xfffffc1f) == 0xd65f0000
}

/// Decides whether `w` is a `BR Xn` instruction.
pub fn is_a64_br_reg(w: u32) -> (r: bool)
    ensures
        r == is_br_word(w),
{
    (w & 0xfffffc1f) == 0xd61f0000
}

/// Decides whether `w` is an unconditional `B imm26` instruction.
pub fn is_a64_b_uncond_imm(w: u32) -> (r: bool)
    ensures
        r == is_b_word(w),
{
    (w & 0xfc000000) == 0x14000000
}

/// Encoding `B imm26` and reading the offset back is the identity, and
/// the encoded word is detected as an unconditional branch.
pub proof fn lemma_b_word_round_trip(offset_words: int)
    requires
        -0x2000000 <= offset_words < 0x2000000,
    ensures
        is_b_word(b_word(offset_words)),
        b_offset_words(b_word(offset_words)) == offset_words,
{
    let imm = imm26_of_offset(offset_words);
    assert(imm < 0x4000000);
    assert((0x14000000u32 | imm) & 0xfc000000 == 0x14000000 && (0x14000000u32 | imm)
        & 0x03ffffff == imm) by (bit_vector)
        requires
            imm < 0x4000000u32,
    ;
}

/// An emitted `RET Xn` or `BR Xn` is recognized by its detector.
pub proof fn lemma_ret_br_detected(rn: u32)
    requires
        rn < 32,
    ensures
        is_ret_word(ret_word(rn)),
        is_br_word(br_word(rn)),
{
    assert((0xd65f0000u32 | (rn << 5u32)) & 0xfffffc1f == 0xd65f0000 && (0xd61f0000u32 | (rn
        << 5u32)) & 0xfffffc1f == 0xd61f0000) by (bit_vector)
        requires
            rn < 32u32,
    ;
}

/// The immediate written by `MOVZ`/`MOVK` reads back out of the
/// word's imm16 field.
pub proof fn lemma_mov_imm16_round_trip(rd: u32, imm16: u32, hw: u32)
    requires
        rd < 32,
        imm16 < 0x10000,
        hw < 4,
    ensures
        mov_imm16_field(movz_x_word(rd, imm16, hw)) == imm16,
        mov_imm16_field(movk_x_word(rd, imm16, hw)) == imm16,
        mov_imm16_field(movz_w_word(rd, imm16)) == imm16,
{
    assert(((0xd2800000u32 | (hw << 21u32) | (imm16 << 5u32) | rd) >> 5u32) & 0xffff == imm16
        && ((0xf2800000u32 | (hw << 21u32) | (imm16 << 5u32) | rd) >> 5u32) & 0xffff == imm16
        && ((0x52800000u32 | (imm16 << 5u32) | rd) >> 5u32) & 0xffff == imm16) by (bit_vector)
        requires
            rd < 32u32,
            imm16 < 0x10000u32,
            hw < 4u32,
    ;
}

} // verus!
