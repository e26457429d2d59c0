//! The values of the ledger's own vocabulary that the proxy carries around,
//! and the few pure operations on them that its rules rest on.
//!
//! Nothing in this file is proved. Each item says what the `scrypto` crate is
//! taken to do, and the rest of the library is proved on that footing.

use vstd::prelude::*;
use scrypto::prelude::{
    ComponentAddress, Decimal, FungibleBucket, NonFungibleLocalId, ResourceAddress,
    Secp256k1PublicKey, VALIDATOR_OWNER_BADGE,
};

verus! {

/// `ResourceAddress`, the address of a resource on the ledger. The library
/// compares such addresses and otherwise carries them as they are.
#[verifier::external_type_specification]
#[verifier::external_body]
pub struct ExResourceAddress(ResourceAddress);

/// `ComponentAddress`, the address of a global component. The library
/// carries such addresses as they are.
#[verifier::external_type_specification]
#[verifier::external_body]
pub struct ExComponentAddress(ComponentAddress);

/// `NonFungibleLocalId`, the local id of one non-fungible unit. The library
/// copies such ids and otherwise carries them as they are.
#[verifier::external_type_specification]
#[verifier::external_body]
pub struct ExNonFungibleLocalId(NonFungibleLocalId);

/// `Decimal`, a fixed-point amount. The library carries amounts as they are.
#[verifier::external_type_specification]
#[verifier::external_body]
pub struct ExDecimal(Decimal);

/// `Secp256k1PublicKey`, a compressed public key. The library carries keys
/// as they are.
#[verifier::external_type_specification]
#[verifier::external_body]
pub struct ExSecp256k1PublicKey(Secp256k1PublicKey);

/// `FungibleBucket`, a handle on a bucket of fungible units. The library
/// carries such handles as they are.
#[verifier::external_type_specification]
#[verifier::external_body]
pub struct ExFungibleBucket(FungibleBucket);

/// Compares two resource addresses with the `==` of `ResourceAddress`, which
/// is derived and so compares the thirty bytes of the two addresses. The
/// claim: the result is `true` exactly when the two are the same address.
#[verifier::external_body]
pub(crate) fn same_resource(a: &ResourceAddress, b: &ResourceAddress) -> (same: bool)
    ensures
        same == (*a == *b),
{
    a == b
}

/// Copies a local id with the `clone` of `NonFungibleLocalId`, which is
/// derived. The claim: the copy is the same id.
#[verifier::external_body]
pub(crate) fn copy_local_id(id: &NonFungibleLocalId) -> (copy: NonFungibleLocalId)
    ensures
        copy == *id,
{
    id.clone()
}

/// Hands out the constant `VALIDATOR_OWNER_BADGE`, the resource whose units
/// control validators. Nothing is claimed of its value.
#[verifier::external_body]
pub(crate) fn validator_owner_badge_resource() -> (resource: ResourceAddress) {
    VALIDATOR_OWNER_BADGE
}

/// The component address that a text spells in hex digits, if it spells one:
/// what `ComponentAddress::try_from_hex` makes of the text.
pub uninterp spec fn component_address_spelled_by(hex: Seq<char>) -> Option<ComponentAddress>;

/// Calls `ComponentAddress::try_from_hex`, which decodes the hex digits and
/// accepts the bytes if there are thirty of them and the first one marks a
/// global component. The claim: the answer depends on the text alone.
#[verifier::external_body]
pub(crate) fn component_address_from_hex(hex: &str) -> (address: Option<ComponentAddress>)
    ensures
        address == component_address_spelled_by(hex@),
{
    ComponentAddress::try_from_hex(hex)
}

} // verus!
