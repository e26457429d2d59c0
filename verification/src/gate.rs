//! The decisions that precede every guarded operation.
//!
//! Each decision is stateless. The one on a proxied call depends on where
//! the presented proof comes from, on what the badge behind it allows at this
//! moment, and on the action that is asked for.

use vstd::prelude::*;
use scrypto::prelude::ResourceAddress;
use crate::error::Error;
use crate::host::same_resource;
use crate::permissions::{AccessKeyPermissions, PermissionType};

verus! {

/// Where a presented proof comes from, as far as one proxy is concerned.
#[derive(Clone, Copy, Debug, PartialEq, Eq, Structural)]
pub enum ProofOrigin {
    /// The proof is of the proxy's owner badge.
    OwnerBadge,
    /// The proof is of one of the proxy's access key badges.
    AccessKeyBadge,
    /// The proof is of anything else.
    Foreign,
}

/// The origin of a proof of the resource `presented`, for a proxy whose
/// owner badge and access key badges are of the resources `owner_badge` and
/// `access_key_badge`.
pub open spec fn origin_of(
    presented: ResourceAddress,
    owner_badge: ResourceAddress,
    access_key_badge: ResourceAddress,
) -> ProofOrigin {
    if presented == owner_badge {
        ProofOrigin::OwnerBadge
    } else if presented == access_key_badge {
        ProofOrigin::AccessKeyBadge
    } else {
        ProofOrigin::Foreign
    }
}

/// The verdict on a request for `action`, made with a proof of the given
/// origin. `permissions` is what the badge behind the proof allows, if the
/// proxy knows the badge; it matters for access key badges alone.
///
/// A foreign proof is refused. The owner badge passes whatever is asked. An
/// access key badge passes exactly when its own record allows the action.
pub open spec fn verdict(
    origin: ProofOrigin,
    permissions: Option<AccessKeyPermissions>,
    action: PermissionType,
) -> Result<(), Error> {
    match origin {
        ProofOrigin::Foreign => Err(Error::UnauthorizedProof),
        ProofOrigin::OwnerBadge => Ok(()),
        ProofOrigin::AccessKeyBadge => match permissions {
            None => Err(Error::UnknownToken),
            Some(permissions) => if permissions.allows(action) {
                Ok(())
            } else {
                Err(Error::PermissionDenied { action })
            },
        },
    }
}

/// The verdict on a request for an operation that is the owner's alone: the
/// owner badge passes, and nothing else does, whatever it allows.
pub open spec fn owner_verdict(origin: ProofOrigin) -> Result<(), Error> {
    if origin == ProofOrigin::OwnerBadge {
        Ok(())
    } else {
        Err(Error::UnauthorizedProof)
    }
}

/// The verdict on an offer of `quantity` units of the resource `offered` for
/// safe keeping, where units of `expected` are wanted and `held` units are
/// kept already.
///
/// The offer is taken only while nothing is kept, and only if it is of
/// exactly one unit of the wanted resource.
pub open spec fn deposit_verdict(
    held: nat,
    offered: ResourceAddress,
    expected: ResourceAddress,
    quantity: nat,
) -> Result<(), Error> {
    if held != 0 {
        Err(Error::AlreadyBound)
    } else if offered != expected {
        Err(Error::WrongCredentialType)
    } else if quantity != 1 {
        Err(Error::WrongQuantity)
    } else {
        Ok(())
    }
}

/// The verdict on a request to hand back what is kept, where `held` units
/// are kept.
///
/// With nothing kept there is nothing to hand back. More than one unit is
/// never taken in, so finding more than one is refused as well.
pub open spec fn withdraw_verdict(held: nat) -> Result<(), Error> {
    if held == 0 {
        Err(Error::NothingToWithdraw)
    } else if held != 1 {
        Err(Error::WrongQuantity)
    } else {
        Ok(())
    }
}

/// Tells where a proof of the resource `presented` comes from.
pub fn proof_origin(
    presented: &ResourceAddress,
    owner_badge: &ResourceAddress,
    access_key_badge: &ResourceAddress,
) -> (origin: ProofOrigin)
    ensures
        origin == origin_of(*presented, *owner_badge, *access_key_badge),
{
    if same_resource(presented, owner_badge) {
        ProofOrigin::OwnerBadge
    } else if same_resource(presented, access_key_badge) {
        ProofOrigin::AccessKeyBadge
    } else {
        ProofOrigin::Foreign
    }
}

/// Decides on a request for `action`.
pub fn authorize(
    origin: ProofOrigin,
    permissions: Option<&AccessKeyPermissions>,
    action: PermissionType,
) -> (outcome: Result<(), Error>)
    ensures
        outcome == verdict(
            origin,
            match permissions {
                Some(p) => Some(*p),
                None => None,
            },
            action,
        ),
{
    match origin {
        ProofOrigin::Foreign => Err(Error::UnauthorizedProof),
        ProofOrigin::OwnerBadge => Ok(()),
        ProofOrigin::AccessKeyBadge => match permissions {
            None => Err(Error::UnknownToken),
            Some(permissions) => if permissions.is_allowed(&action) {
                Ok(())
            } else {
                Err(Error::PermissionDenied { action })
            },
        },
    }
}

/// Decides on a request for an operation that is the owner's alone.
pub fn authorize_owner(origin: ProofOrigin) -> (outcome: Result<(), Error>)
    ensures
        outcome == owner_verdict(origin),
{
    match origin {
        ProofOrigin::OwnerBadge => Ok(()),
        ProofOrigin::AccessKeyBadge => Err(Error::UnauthorizedProof),
        ProofOrigin::Foreign => Err(Error::UnauthorizedProof),
    }
}

/// Decides on an offer of `quantity` units of the resource `offered` for safe
/// keeping, where `held` units are kept already.
pub fn check_deposit(
    held: usize,
    offered: &ResourceAddress,
    expected: &ResourceAddress,
    quantity: usize,
) -> (outcome: Result<(), Error>)
    ensures
        outcome == deposit_verdict(held as nat, *offered, *expected, quantity as nat),
{
    if held != 0 {
        Err(Error::AlreadyBound)
    } else if !same_resource(offered, expected) {
        Err(Error::WrongCredentialType)
    } else if quantity != 1 {
        Err(Error::WrongQuantity)
    } else {
        Ok(())
    }
}

/// Decides on a request to hand back what is kept, where `held` units are
/// kept.
pub fn check_withdraw(held: usize) -> (outcome: Result<(), Error>)
    ensures
        outcome == withdraw_verdict(held as nat),
{
    if held == 0 {
        Err(Error::NothingToWithdraw)
    } else if held != 1 {
        Err(Error::WrongQuantity)
    } else {
        Ok(())
    }
}

} // verus!
