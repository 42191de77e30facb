//! Deferred, ordered static initialization, modelled and verified.
//!
//! A *deferred static* is a global value whose initializer expression runs
//! once, automatically, before a designated entry point executes. Declaring
//! one expands to hidden backing storage, a public handle, an initializer
//! routine, and a registration entry in a process-wide collection; the entry
//! point is wrapped so that it drains that collection, in order, before its
//! own body runs.
//!
//! The crate verifies the two halves of that mechanism:
//! - the declaration-time expansion rules: which declarations are accepted,
//!   which are rejected with which diagnostic, and exactly which names and
//!   items an accepted declaration generates (`markers`, `names`, `expand`);
//! - the runtime lifecycle of the registration collection and the backing
//!   cells: each registered initializer runs exactly once when the entry
//!   point drains the collection, and every later read of a handle returns
//!   the value that initializer produced (`registry`, `laws`).

pub mod errors;
pub mod expand;
pub mod laws;
pub mod markers;
pub mod names;
pub mod registry;
