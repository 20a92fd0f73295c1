//! Verified core of the StarFund invoice-funding escrow: storage-key
//! constructors, the paginated-read window arithmetic, the unique-funder
//! ceiling, and the release-path budget gate.

use vstd::prelude::*;

pub mod address;
pub mod keys;
pub mod pagination;
pub mod budget;
pub mod funders;

verus! {

/// The escrow contract. The library holds its pure helpers as associated
/// functions.
pub struct StarfundEscrow;

/// Largest page any paginated investor view returns in one call.
pub const MAX_INVESTOR_READ_BATCH: u32 = 50;

} // verus!
