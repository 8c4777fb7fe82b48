//! The revision log behind a content platform's file attachments.
//!
//! Every mutation of a file becomes one immutable row of an append-only
//! history. The library decides what a request comes to, guards against
//! lost updates with an optimistic concurrency token, computes minimal
//! change-sets, and keeps the history's invariants.

use vstd::prelude::*;

pub mod change_set;
pub mod config;
pub mod error;
pub mod file_structs;
pub mod mfa;
pub mod provided_value;
pub mod reference;
pub mod revision_laws;
pub mod revision_lifecycle;
pub mod revision_model;
pub mod revision_persist;
pub mod revision_service;
pub mod revision_store;
pub mod revision_structs;

verus! {

} // verus!
