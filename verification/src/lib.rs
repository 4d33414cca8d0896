//! Region-bounded handles to values owned by an external garbage collector.
//!
//! Native code embedded in a host runtime may hold references to values whose
//! memory the host's collector owns and reclaims. This crate is the access
//! discipline that keeps such references safe: every handle is tagged with the
//! region (scope) that produced it, regions nest strictly, and a handle may
//! only be used while its region is open. A chained region additionally
//! supports promoting exactly one handle outward to its parent region.
//!
//! The engine itself is an external collaborator; the [`isolate`] module
//! models the part of it this subsystem reads and writes: the runtime kind of
//! every value slot, the region keeping each slot alive, and the stack of open
//! regions.

pub mod handle;
pub mod isolate;
pub mod scope;
