//! Attribution of memory allocations to caller-defined allocation groups.
//!
//! The crate keeps a process-wide, append-only registry of allocation groups
//! (`registry`), a per-thread state machine recording which group is active
//! (`token`), and the layout and attribution logic of the allocator shim that
//! stamps every allocation with the group that made it (`allocator`).

pub mod allocator;
pub mod registry;
pub mod token;

