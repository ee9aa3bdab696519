//! Model of a patchable code region: a byte buffer in which a patch is
//! installed by overwriting a window and removed by writing the
//! snapshot of the original bytes back.
//!
//! `store_seq` is the mathematical effect of one such write; the
//! executable operations mirror the snapshot (step 2 of an
//! installation), the prologue write (step 6) and the restoring write
//! that removal performs.

use vstd::prelude::*;

verus! {

/// The byte sequence `mem` with `data` written at offset `off`.
pub open spec fn store_seq(mem: Seq<u8>, off: int, data: Seq<u8>) -> Seq<u8>
    recommends
        0 <= off,
        off + data.len() <= mem.len(),
{
    mem.map(|i: int, b: u8| if off <= i < off + data.len() { data[i - off] } else { b })
}

/// A write changes nothing outside the written window.
pub proof fn lemma_store_outside(mem: Seq<u8>, off: int, data: Seq<u8>, i: int)
    requires
        0 <= off,
        off + data.len() <= mem.len(),
        0 <= i < mem.len(),
        !(off <= i < off + data.len()),
    ensures
        store_seq(mem, off, data)[i] == mem[i],
{
}

/// A write puts exactly the written bytes into the window.
pub proof fn lemma_store_inside(mem: Seq<u8>, off: int, data: Seq<u8>, i: int)
    requires
        0 <= off,
        off + data.len() <= mem.len(),
        off <= i < off + data.len(),
    ensures
        store_seq(mem, off, data)[i] == data[i - off],
{
}

/// Restoring is exact: writing any patch over a window and then
/// writing the snapshot of the window's original bytes back yields the
/// original region, byte for byte.
pub proof fn lemma_restore_exact(mem: Seq<u8>, off: int, patch: Seq<u8>)
    requires
        0 <= off,
        off + patch.len() <= mem.len(),
    ensures
        store_seq(store_seq(mem, off, patch), off, mem.subrange(off, off + patch.len())) == mem,
{
    assert(store_seq(store_seq(mem, off, patch), off, mem.subrange(off, off + patch.len()))
        =~= mem);
}

/// Copies `len` bytes starting at `off`: the snapshot of a patch
/// window.
pub fn copy_window(region: &Vec<u8>, off: usize, len: usize) -> (r: Vec<u8>)
    requires
        off + len <= region@.len(),
    ensures
        r@ == region@.subrange(off as int, off + len),
{
    let m = region.len();
    let mut r: Vec<u8> = Vec::new();
    let mut i: usize = 0;
    while i < len
        invariant
            i <= len,
            m == region@.len(),
            off + len <= region@.len(),
            r@ == region@.subrange(off as int, off + i),
        decreases len - i,
    {
        r.push(region[off + i]);
        proof {
            assert(r@ =~= region@.subrange(off as int, off + i + 1));
        }
        i = i + 1;
    }
    r
}

/// Writes `data` into the region at offset `off`: the installing or
/// restoring write over a patch window.
pub fn write_bytes_at(region: &mut Vec<u8>, off: usize, data: &Vec<u8>)
    requires
        off + data@.len() <= old(region)@.len(),
    ensures
        final(region)@ == store_seq(old(region)@, off as int, data@),
{
    let n = data.len();
    let m = region.len();
    let mut i: usize = 0;
    while i < n
        invariant
            i <= n,
            n == data@.len(),
            m == old(region)@.len(),
            off + n <= old(region)@.len(),
            region@.len() == old(region)@.len(),
            forall|k: int|
                0 <= k < region@.len() && !(off <= k < off + i) ==> region@[k] == old(region)@[k],
            forall|k: int| off <= k < off + i ==> region@[k] == data@[k - off],
        decreases n - i,
    {
        region[off + i] = data[i];
        i = i + 1;
    }
    proof {
        assert(region@ =~= store_seq(old(region)@, off as int, data@));
    }
}

} // verus!
