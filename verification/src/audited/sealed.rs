//! The private supertrait that seals the admin-response allowlist.
use vstd::prelude::*;

verus! {

/// Implemented only inside this crate.
pub trait Sealed {}

} // verus!
