//! The Soroban address type, carried through the library as an opaque value.

use vstd::prelude::*;

verus! {

/// `soroban_sdk::Address` is a handle into the Soroban host. The library
/// never looks inside one: it only stores it in keys and hands it back.
#[verifier::external_type_specification]
#[verifier::external_body]
pub struct ExAddress(soroban_sdk::Address);

/// `soroban_sdk::Address::clone`, which `#[derive(Clone)]` writes in
/// soroban_sdk: it copies the environment handle and the host object handle,
/// so the clone is the same address value.
pub assume_specification[ <soroban_sdk::Address as core::clone::Clone>::clone ](
    a: &soroban_sdk::Address,
) -> (r: soroban_sdk::Address)
    ensures
        r == *a,
;

} // verus!
