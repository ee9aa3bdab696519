//! Core of a runtime function-patching engine for native test doubles.
//!
//! The crate contains the arithmetic and byte-level logic of the engine:
//! AArch64 instruction encoding and detection, preflight validation of a
//! patch window, construction of trampolines and prologue patches for
//! x86_64 and AArch64, the near-address allocation scan, and the patch
//! lifecycle records.  The thin layer that touches process memory (page
//! mapping, protection changes, instruction-cache flushes) lives outside
//! this crate and consumes the byte sequences produced here.

pub mod a64;
pub mod a64_patch;
pub mod image;
pub mod lifecycle;
pub mod nearalloc;
pub mod preflight;
pub mod words;
pub mod x64_patch;
