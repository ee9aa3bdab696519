//! Little-endian serialization of 32-bit instruction words into byte
//! buffers, and reading words back out of a byte snapshot.
//!
//! Encoded instructions are 32-bit little-endian on every supported
//! platform, so a code buffer is a byte sequence in which the word at
//! index `i` occupies bytes `4*i .. 4*i + 4`.

use vstd::prelude::*;

verus! {

/// The four little-endian bytes of an instruction word.
pub open spec fn word_bytes(w: u32) -> Seq<u8> {
    seq![
        (w & 0xff) as u8,
        ((w >> 8u32) & 0xff) as u8,
        ((w >> 16u32) & 0xff) as u8,
        ((w >> 24u32) & 0xff) as u8,
    ]
}

/// The 32-bit value stored little-endian at byte offset `off`.
pub open spec fn u32_le_at(bytes: Seq<u8>, off: int) -> u32
    recommends
        0 <= off,
        off + 4 <= bytes.len(),
{
    (bytes[off] as u32) | ((bytes[off + 1] as u32) << 8u32) | ((bytes[off + 2] as u32) << 16u32)
        | ((bytes[off + 3] as u32) << 24u32)
}

/// The instruction word stored little-endian at word index `i`.
pub open spec fn word_at(bytes: Seq<u8>, i: int) -> u32
    recommends
        0 <= i,
        4 * i + 4 <= bytes.len(),
{
    u32_le_at(bytes, 4 * i)
}

/// Serializing a word and reading it back is the identity.
pub proof fn lemma_word_round_trip(w: u32)
    ensures
        word_at(word_bytes(w), 0) == w,
{
    assert(((w & 0xff) as u8 as u32) | (((w >> 8u32) & 0xff) as u8 as u32) << 8u32 | (((w
        >> 16u32) & 0xff) as u8 as u32) << 16u32 | (((w >> 24u32) & 0xff) as u8 as u32) << 24u32
        == w) by (bit_vector);
}

/// Reading four bytes back out of the middle of a buffer yields the
/// word that was serialized there.
pub proof fn lemma_u32_le_at_mid(a: Seq<u8>, w: u32, b: Seq<u8>)
    ensures
        u32_le_at(a + word_bytes(w) + b, a.len() as int) == w,
{
    let s = a + word_bytes(w) + b;
    let off = a.len() as int;
    assert(s[off] == word_bytes(w)[0]);
    assert(s[off + 1] == word_bytes(w)[1]);
    assert(s[off + 2] == word_bytes(w)[2]);
    assert(s[off + 3] == word_bytes(w)[3]);
    lemma_word_round_trip(w);
}

/// Appends the four little-endian bytes of `instruction`.
pub fn append_instruction(asm_code: &mut Vec<u8>, instruction: u32)
    ensures
        final(asm_code)@ == old(asm_code)@ + word_bytes(instruction),
{
    let w = instruction;
    proof {
        assert(w & 0xff < 256 && (w >> 8u32) & 0xff < 256 && (w >> 16u32) & 0xff < 256 && (w
            >> 24u32) & 0xff < 256) by (bit_vector);
    }
    asm_code.push((w & 0xff) as u8);
    asm_code.push(((w >> 8u32) & 0xff) as u8);
    asm_code.push(((w >> 16u32) & 0xff) as u8);
    asm_code.push(((w >> 24u32) & 0xff) as u8);
    proof {
        assert(asm_code@ =~= old(asm_code)@ + word_bytes(instruction));
    }
}

/// Writes the four little-endian bytes of `instruction` at `*cursor`
/// and advances the cursor past them; the rest of the buffer is kept.
pub fn write_instruction(buf: &mut Vec<u8>, cursor: &mut usize, instruction: u32)
    requires
        *old(cursor) + 4 <= old(buf)@.len(),
    ensures
        final(buf)@.len() == old(buf)@.len(),
        final(buf)@ == old(buf)@.subrange(0, *old(cursor) as int) + word_bytes(instruction) + old(
            buf,
        )@.subrange(*old(cursor) + 4, old(buf)@.len() as int),
        *final(cursor) == *old(cursor) + 4,
{
    let w = instruction;
    proof {
        assert(w & 0xff < 256 && (w >> 8u32) & 0xff < 256 && (w >> 16u32) & 0xff < 256 && (w
            >> 24u32) & 0xff < 256) by (bit_vector);
    }
    let c = *cursor;
    let _n = buf.len();
    buf[c] = (w & 0xff) as u8;
    buf[c + 1] = ((w >> 8u32) & 0xff) as u8;
    buf[c + 2] = ((w >> 16u32) & 0xff) as u8;
    buf[c + 3] = ((w >> 24u32) & 0xff) as u8;
    *cursor = c + 4;
    proof {
        assert(buf@ =~= old(buf)@.subrange(0, c as int) + word_bytes(instruction) + old(
            buf,
        )@.subrange(c + 4, old(buf)@.len() as int));
    }
}

/// Reads the instruction word stored little-endian at word index `i`.
pub fn read_word(buf: &Vec<u8>, i: usize) -> (r: u32)
    requires
        4 * i + 4 <= buf@.len(),
    ensures
        r == word_at(buf@, i as int),
{
    let _n = buf.len();
    let b0 = buf[4 * i];
    let b1 = buf[4 * i + 1];
    let b2 = buf[4 * i + 2];
    let b3 = buf[4 * i + 3];
    (b0 as u32) | ((b1 as u32) << 8u32) | ((b2 as u32) << 16u32) | ((b3 as u32) << 24u32)
}

} // verus!
