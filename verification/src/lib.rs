//! A region ("arena") allocator's bookkeeping, with owning handles for the
//! values placed in it.
//!
//! An [`Arena`] accounts for one block of memory that a backing-store
//! provider handed over: it carves the block into disjoint, aligned byte
//! ranges by advancing a cursor, and never reclaims a range on its own. Each
//! placement yields an [`ArenaBox`], the sole owner of the value placed.
//!
//! The library touches no memory itself. Addresses are numbers here; asking
//! the provider for the block, and giving the block back, is left to the
//! caller, who is told what to ask for and hands the answer in.

pub mod backing;
pub mod arena;
pub mod arena_box;
pub mod unique;
pub mod unsize;

pub use backing::AllocError;
pub use arena::Arena;
pub use arena_box::ArenaBox;
