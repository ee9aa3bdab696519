//! Preflight validation of a patch window.
//!
//! Before rewriting the first instructions of a function, the engine
//! inspects the bytes it would overwrite.  An unconditional `B imm26`
//! at the very start is tolerated (a veneer to the real body); any
//! other terminator — `RET`, `BR Xn`, or a `B imm26` past the first
//! word — means the function is too short to patch safely, and the
//! verdict names the byte offset of the first such word.

use vstd::prelude::*;

use crate::a64::{is_a64_b_uncond_imm, is_a64_br_reg, is_a64_ret, is_b_word, is_br_word,
    is_ret_word};
use crate::words::{read_word, word_at};

verus! {

/// The verdict of a preflight inspection: proceed, or refuse with the
/// byte offset of the first word that makes the rewrite unsafe.
#[derive(Clone, Copy, Debug, PartialEq, Eq, Structural)]
pub enum Verdict {
    Proceed,
    Refuse { offset: usize },
}

/// A hard, non-fallthrough terminator: `RET`, `BR Xn`, or an
/// unconditional `B imm26`.
pub open spec fn is_terminator_word(w: u32) -> bool {
    is_ret_word(w) || is_br_word(w) || is_b_word(w)
}

/// Whether the word at index `i` of the window forbids the rewrite:
/// at index 0 an unconditional `B` is tolerated, any other terminator
/// is not; at index 1 and later every terminator is.
pub open spec fn word_refused_at(bytes: Seq<u8>, i: int) -> bool {
    if i == 0 {
        is_ret_word(word_at(bytes, 0)) || is_br_word(word_at(bytes, 0))
    } else {
        is_terminator_word(word_at(bytes, i))
    }
}

/// A window is safe to overwrite when no word of it is refused.
pub open spec fn window_safe(bytes: Seq<u8>) -> bool {
    forall|i: int| 0 <= i < bytes.len() as int / 4 ==> !word_refused_at(bytes, i)
}

/// Inspects the bytes the patch would overwrite and refuses unsafe
/// rewrites, naming the byte offset of the first refused word.
pub fn preflight_patch_window(window: &Vec<u8>) -> (v: Verdict)
    requires
        window@.len() % 4 == 0,
    ensures
        (v == Verdict::Proceed) <==> window_safe(window@),
        v matches Verdict::Refuse { offset } ==> {
            &&& offset % 4 == 0
            &&& offset + 4 <= window@.len()
            &&& word_refused_at(window@, offset as int / 4)
            &&& forall|j: int| 0 <= j < offset as int / 4 ==> !word_refused_at(window@, j)
        },
{
    let n = window.len();
    let words = n / 4;
    proof {
        assert(4 * (n as int / 4) == n as int);
    }
    let mut i: usize = 0;
    while i < words
        invariant
            n == window@.len(),
            n % 4 == 0,
            words == n as int / 4,
            4 * (words as int) == n as int,
            i <= words,
            forall|j: int| 0 <= j < i ==> !word_refused_at(window@, j),
        decreases words - i,
    {
        let w = read_word(window, i);
        let bad = if i == 0 {
            is_a64_ret(w) || is_a64_br_reg(w)
        } else {
            is_a64_ret(w) || is_a64_br_reg(w) || is_a64_b_uncond_imm(w)
        };
        if bad {
            proof {
                assert(word_refused_at(window@, i as int));
                assert(!window_safe(window@));
            }
            return Verdict::Refuse { offset: 4 * i };
        }
        i = i + 1;
    }
    Verdict::Proceed
}

/// Preflight conservatism: a window holding a terminator at any word
/// index past the first, or a `RET` or `BR Xn` at the first, is not
/// safe, so no patch is installed over it.
pub proof fn lemma_preflight_conservative(bytes: Seq<u8>, i: int)
    requires
        0 <= i < bytes.len() as int / 4,
        i == 0 ==> is_ret_word(word_at(bytes, 0)) || is_br_word(word_at(bytes, 0)),
        i >= 1 ==> is_terminator_word(word_at(bytes, i)),
    ensures
        !window_safe(bytes),
{
    assert(word_refused_at(bytes, i));
}

} // verus!
