//! Reconciliation of stored channel records against freshly fetched channel
//! metadata and video listings.

use vstd::prelude::*;

pub mod reconcile;
pub mod record;
pub mod status;
pub mod videos;

verus! {

} // verus!
