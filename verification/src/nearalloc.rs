//! The near-address allocation scan.
//!
//! A trampoline must lie within the branch reach of the instruction
//! set — 2 GiB on x86_64, 128 MiB on AArch64 — of the function it
//! serves.  The scan starts at the source address minus the reach
//! (saturating at zero), requests an allocation hinted at each page
//! boundary in turn, keeps the first allocation that actually lies in
//! reach, releases any that the operating system placed elsewhere, and
//! is exhausted once the hint passes the source address plus the
//! reach.  The decisions live here; the layer that owns process
//! memory performs the requests and feeds each outcome back.

use vstd::prelude::*;

verus! {

/// The instruction sets the engine distinguishes.
#[derive(Clone, Copy, Debug, PartialEq, Eq, Structural)]
pub enum Arch {
    /// x86_64: reached by `JMP rel32`.
    X64,
    /// AArch64: reached by `B imm26`.
    A64,
    /// Anything else: no short-branch limit is enforced.
    Other,
}

/// The branch reach of the instruction set: the largest displacement
/// its shortest unconditional branch can encode, or `None` when no
/// limit is enforced.
pub open spec fn spec_branch_reach(arch: Arch) -> Option<u64> {
    match arch {
        Arch::X64 => Some(0x80000000u64),
        Arch::A64 => Some(0x8000000u64),
        Arch::Other => None,
    }
}

/// Returns the branch reach of the instruction set.
pub fn branch_reach(arch: Arch) -> (r: Option<u64>)
    ensures
        r == spec_branch_reach(arch),
{
    match arch {
        Arch::X64 => Some(0x80000000u64),
        Arch::A64 => Some(0x8000000u64),
        Arch::Other => None,
    }
}

/// Whether `p` is a power of two that a 64-bit word can hold.
pub open spec fn is_power_of_two_u64(p: u64) -> bool {
    exists|k: u64| k < 64 && p == (1u64 << k)
}

/// The start of the page containing `addr`: protection changes cover
/// the whole page, so the address is rounded down to the page
/// boundary.
pub fn page_start(addr: u64, page_size: u64) -> (r: u64)
    requires
        is_power_of_two_u64(page_size),
    ensures
        r == addr - addr % page_size,
        r % page_size == 0,
        r <= addr,
        addr - r < page_size,
{
    proof {
        let k = choose|k: u64| k < 64 && page_size == (1u64 << k);
        vstd::bits::lemma_u64_pow2_no_overflow(k as nat);
        vstd::bits::lemma_u64_shl_is_mul(1u64, k);
        assert(page_size == vstd::arithmetic::power2::pow2(k as nat));
        vstd::bits::lemma_u64_low_bits_mask_is_mod(addr, k as nat);
        assert(addr & ((page_size - 1) as u64) == addr % page_size);
        assert(addr & !((page_size - 1) as u64) == addr - (addr & ((page_size - 1) as u64)))
            by (bit_vector);
        vstd::arithmetic::div_mod::lemma_fundamental_div_mod(addr as int, page_size as int);
        vstd::arithmetic::div_mod::lemma_mod_multiples_basic(
            addr as int / page_size as int,
            page_size as int,
        );
        vstd::arithmetic::mul::lemma_mul_is_commutative(
            addr as int / page_size as int,
            page_size as int,
        );
        assert(addr - addr % page_size == (addr as int / page_size as int) * (page_size as int));
        assert((addr - addr % page_size) % (page_size as int) == 0);
    }
    let mask: u64 = page_size - 1;
    addr & !mask
}

/// The state of one near-address scan.
pub struct NearScan {
    /// Address of the function the allocation must stay near.
    pub original_addr: u64,
    /// Largest allowed distance from `original_addr`.
    pub reach: u64,
    /// Step between successive hints.
    pub page_size: u64,
    /// The next address to hint the allocation at.
    pub next_hint: u64,
    /// Set once the hint has passed the end of the reach window.
    pub finished: bool,
}

impl NearScan {
    /// The scan's invariant: a positive step, and a reach window
    /// whose upper end exists.
    pub open spec fn wf(self) -> bool {
        &&& self.page_size > 0
        &&& self.original_addr + self.reach <= u64::MAX
    }

    /// The last address the scan will hint at.
    pub open spec fn limit(self) -> int {
        self.original_addr + self.reach
    }

    /// Whether an address lies within the reach window.
    pub open spec fn in_reach(self, addr: u64) -> bool {
        if addr >= self.original_addr {
            addr - self.original_addr <= self.reach
        } else {
            self.original_addr - addr <= self.reach
        }
    }

    /// Starts a scan: the first hint is the source address minus the
    /// reach, saturating at zero.
    pub fn new(original_addr: u64, reach: u64, page_size: u64) -> (s: NearScan)
        requires
            page_size > 0,
            original_addr + reach <= u64::MAX,
        ensures
            s.wf(),
            s.original_addr == original_addr,
            s.reach == reach,
            s.page_size == page_size,
            s.next_hint == if original_addr >= reach {
                (original_addr - reach) as u64
            } else {
                0u64
            },
            !s.finished,
    {
        let start: u64 = if original_addr >= reach {
            original_addr - reach
        } else {
            0
        };
        NearScan { original_addr, reach, page_size, next_hint: start, finished: false }
    }

    /// Whether the scan has run out of addresses to try; a fatal
    /// out-of-reach failure for the caller.
    pub fn exhausted(&self) -> (r: bool)
        requires
            self.wf(),
        ensures
            r == (self.finished || self.next_hint > self.limit()),
    {
        self.finished || self.next_hint > self.original_addr + self.reach
    }

    /// Decides the fate of one allocation attempt at the current
    /// hint: the attempt's outcome is kept exactly when it produced
    /// an address within reach of the function; otherwise the caller
    /// must release whatever was allocated and the scan steps to the
    /// next page boundary.
    pub fn offer(&mut self, allocated: Option<u64>) -> (keep: bool)
        requires
            old(self).wf(),
            !old(self).finished,
            old(self).next_hint <= old(self).limit(),
        ensures
            final(self).wf(),
            final(self).original_addr == old(self).original_addr,
            final(self).reach == old(self).reach,
            final(self).page_size == old(self).page_size,
            keep <==> (allocated matches Some(a) && old(self).in_reach(a)),
            keep ==> *final(self) == *old(self),
            !keep && old(self).next_hint + old(self).page_size <= old(self).limit()
                ==> !final(self).finished && final(self).next_hint == old(self).next_hint + old(
                self).page_size,
            !keep && old(self).next_hint + old(self).page_size > old(self).limit()
                ==> final(self).finished,
    {
        let keep: bool = match allocated {
            Some(a) => {
                if a >= self.original_addr {
                    a - self.original_addr <= self.reach
                } else {
                    self.original_addr - a <= self.reach
                }
            },
            None => false,
        };
        if !keep {
            let lim: u64 = self.original_addr + self.reach;
            if self.page_size <= lim - self.next_hint {
                self.next_hint = self.next_hint + self.page_size;
            } else {
                self.finished = true;
            }
        }
        keep
    }
}

} // verus!
