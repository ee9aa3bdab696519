//! The patch lifecycle record and the engine's error taxonomy.
//!
//! A `PatchPlan` is everything an installed patch owns: the address
//! being patched, the snapshot of the bytes the patch overwrites, the
//! prologue patch itself, and the trampoline allocation with the code
//! that fills it.  The layer that owns process memory installs the
//! plan by writing `patch_bytes` over the window and removes it by
//! writing `original_bytes` back and releasing the trampoline.

use vstd::prelude::*;

use crate::image::{lemma_restore_exact, store_seq};

verus! {

/// Why a patch could not be constructed.
#[derive(Clone, Copy, Debug, PartialEq, Eq, Structural)]
pub enum PatchError {
    /// Preflight refused: a terminator sits at this byte offset of the
    /// patch window, so the function is too short to patch safely.
    UnsafeTarget { offset: usize },
    /// No executable memory could be placed within branch reach of the
    /// patched function.
    OutOfReach,
    /// The branch offset from the function to its trampoline does not
    /// fit the branch encoding; the allocation broke its contract.
    BranchOutOfRange,
}

/// Everything one installed patch owns.
#[derive(Debug)]
pub struct PatchPlan {
    /// Address of the function entry being patched.
    pub func_addr: u64,
    /// Snapshot of the bytes the patch overwrites.
    pub original_bytes: Vec<u8>,
    /// Length of the patch window at `func_addr`.
    pub patch_size: usize,
    /// The bytes written over the patch window.
    pub patch_bytes: Vec<u8>,
    /// Base address of the trampoline allocation.
    pub trampoline_addr: u64,
    /// Size of the trampoline allocation.
    pub trampoline_size: usize,
    /// The code written into the trampoline allocation.
    pub trampoline_bytes: Vec<u8>,
}

impl PatchPlan {
    /// The record's invariant: the snapshot and the patch cover
    /// exactly the patch window, and the trampoline code fills its
    /// allocation.
    pub open spec fn wf(self) -> bool {
        &&& self.original_bytes@.len() == self.patch_size
        &&& self.patch_bytes@.len() == self.patch_size
        &&& self.trampoline_bytes@.len() == self.trampoline_size
    }

    /// The bytes that removal writes back over the patch window: the
    /// exact snapshot taken before installation.
    pub fn restore_bytes(&self) -> (r: Vec<u8>)
        ensures
            r@ == self.original_bytes@,
    {
        let n = self.original_bytes.len();
        let mut r: Vec<u8> = Vec::new();
        let mut i: usize = 0;
        while i < n
            invariant
                i <= n,
                n == self.original_bytes@.len(),
                r@ == self.original_bytes@.subrange(0, i as int),
            decreases n - i,
        {
            r.push(self.original_bytes[i]);
            proof {
                assert(r@ =~= self.original_bytes@.subrange(0, i + 1));
            }
            i = i + 1;
        }
        proof {
            assert(self.original_bytes@.subrange(0, n as int) =~= self.original_bytes@);
        }
        r
    }
}

/// Restore is exact: for a plan whose snapshot was taken from the
/// window it patches, installing the patch and then writing the
/// snapshot back yields the region exactly as it was before the
/// patch, byte for byte.
pub proof fn lemma_plan_restore_exact(mem: Seq<u8>, off: int, plan: PatchPlan)
    requires
        plan.wf(),
        0 <= off,
        off + plan.patch_size <= mem.len(),
        plan.original_bytes@ == mem.subrange(off, off + plan.patch_size),
    ensures
        store_seq(store_seq(mem, off, plan.patch_bytes@), off, plan.original_bytes@) == mem,
{
    lemma_restore_exact(mem, off, plan.patch_bytes@);
}

/// Moving a plan to a new owner preserves it exactly: the record —
/// and with it the installed patch it describes — is untouched by the
/// transfer of ownership; only removal changes the patched function.
pub fn relocate_plan(plan: PatchPlan) -> (r: PatchPlan)
    ensures
        r == plan,
{
    plan
}

} // verus!
