use vstd::prelude::*;

verus! {

/// Declares `soroban_sdk::Address` to Verus as an opaque type, so that the
/// vault's state and subscriptions can hold addresses.
#[verifier::external_type_specification]
#[verifier::external_body]
pub struct ExAddress(soroban_sdk::Address);

/// `soroban_sdk::Address::clone`, which `derive(Clone)` writes: it clones the
/// environment handle and the host object handle, so the copy denotes the
/// same address.  Claimed: the result is the argument.
pub assume_specification[<soroban_sdk::Address as Clone>::clone](a: &soroban_sdk::Address) -> (r: soroban_sdk::Address)
    ensures
        r == *a,
;

} // verus!
