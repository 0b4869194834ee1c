//! Verified core of the Cauldron plugin loader for Decima-engine games:
//! plugin metadata and load ordering, memory-pattern signatures, PE image
//! sections, the offset registry, window-message translation and the
//! small pieces of renderer bookkeeping that are plain arithmetic.
use vstd::prelude::*;

pub mod config;
pub mod draw;
pub mod host;
pub mod init_context;
pub mod input;
pub mod mem;
pub mod metadata;
pub mod offsets;
pub mod outparam;
pub mod pe;
pub mod plugins;
pub mod region;
pub mod rtti;
pub mod summary;
pub mod text;
pub mod texture;
pub mod ui;
pub mod version;
pub mod versioning;

verus! {

} // verus!
