//! Core of a static/dynamic linker: symbol resolution, relocation
//! classification, memory layout, relocation application, and post-link
//! validation of the emitted GOT.

use vstd::prelude::*;

pub mod args;
pub mod bytes;
pub mod driver;
pub mod errors;
pub mod format;
pub mod layout;
pub mod reloc;
pub mod symbol_db;
pub mod text;
pub mod validation;

verus! {

/// The load address used for non-relocatable executables. Position-independent
/// outputs are laid out from address zero instead.
pub const NON_PIE_START_MEM_ADDRESS: u64 = 0x400_000;

} // verus!
