//! Verified traversal core for a storage-pool dataset hierarchy.
//!
//! A pool exposes a tree of datasets (filesystems, volumes, snapshots) whose
//! children are only discoverable through a callback-driven native
//! enumeration primitive, and where every node is backed by a native
//! resource that must be released exactly once.  This crate verifies the
//! resource-ownership discipline and the traversal logic itself:
//!
//! - [`dataset`]: dataset kinds and the error taxonomy, with the accessor
//!   decision logic (invalid type codes, missing names).
//! - [`handle`]: singular ownership of native node references: the owning
//!   handle, the single-use cross-context transfer token, the session
//!   handle, and the ordered root list builder.
//! - [`stream`]: the pull side of one node's child enumeration, a
//!   state machine that preserves arrival order and has a terminal,
//!   non-restartable end state carrying the native status, so a failed
//!   enumeration stays distinguishable from a clean exhaustion.
//! - [`walker`]: the depth-first walker, a stack of child streams that
//!   yields every node of the tree exactly once, in pre-order, and
//!   surfaces a structured error the moment a stream fails, together
//!   with the proofs of both.
//!
//! The native enumeration calls themselves (blocking, callback-driven, one
//! producer execution unit per expanded node) live outside this crate; they
//! hand events into the state machines defined here.

pub mod dataset;
pub mod handle;
pub mod stream;
pub mod walker;
