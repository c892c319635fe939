//! The principal type that records and allow-lists carry, and the two
//! operations the library performs on it.

use soroban_sdk::Address;
use vstd::prelude::*;

verus! {

/// `soroban_sdk::Address`: an opaque identifier of an account or a contract.
/// The library never looks inside one; it only stores, copies and compares
/// them. In contracts an address stands for the principal it identifies: two
/// handles to one principal are one value.
#[verifier::external_type_specification]
#[verifier::external_body]
pub struct ExAddress(soroban_sdk::Address);

/// `<soroban_sdk::Address as Clone>::clone`.
///
/// Trusted: the copy identifies the same principal as `address`. The
/// outside impl is derived; it copies the object handle and the handle to the
/// environment, and makes no host call.
pub assume_specification[ <soroban_sdk::Address as Clone>::clone ](
    address: &soroban_sdk::Address,
) -> (copy: soroban_sdk::Address)
    ensures
        copy == *address,
;

/// Calls `<soroban_sdk::Address as PartialEq>::eq`.
///
/// Trusted: two addresses compare equal exactly when they identify the same
/// principal. The outside impl compares the two values that the handles stand
/// for, through the host's object comparison where both belong to one
/// environment, and by their serialized form where they do not. The
/// comparison is metered by the host like every host call.
#[verifier::external_body]
pub(crate) fn same_address(a: &Address, b: &Address) -> (same: bool)
    ensures
        same == (*a == *b),
{
    a == b
}

} // verus!
