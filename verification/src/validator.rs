//! The calls that the proxy passes on to the validator it manages.

use vstd::prelude::*;
use scrypto::prelude::{
    ComponentAddress, Decimal, FungibleBucket, NonFungibleLocalId, Secp256k1PublicKey,
};
use crate::permissions::PermissionType;

verus! {

/// One call on the validator, with its arguments as the caller gave them.
#[derive(Debug, PartialEq, Eq)]
pub enum ValidatorCall {
    StakeAsOwner { stake: FungibleBucket },
    Register,
    Unregister,
    UpdateKey { key: Secp256k1PublicKey },
    UpdateFee { new_fee_factor: Decimal },
    LockOwnerStakeUnits { stake_unit_bucket: FungibleBucket },
    StartUnlockOwnerStakeUnits { requested_stake_unit_amount: Decimal },
    FinishUnlockOwnerStakeUnits,
    UpdateAcceptDelegatedStake { accept_delegated_stake: bool },
    SignalProtocolUpdateReadiness { protocol_version_name: String },
}

impl ValidatorCall {
    /// The permission that an access key badge needs for this call.
    pub open spec fn required_permission(self) -> PermissionType {
        match self {
            ValidatorCall::StakeAsOwner { .. } => PermissionType::StakeAsOwner,
            ValidatorCall::Register => PermissionType::Register,
            ValidatorCall::Unregister => PermissionType::Unregister,
            ValidatorCall::UpdateKey { .. } => PermissionType::UpdateKey,
            ValidatorCall::UpdateFee { .. } => PermissionType::UpdateFee,
            ValidatorCall::LockOwnerStakeUnits { .. } => PermissionType::LockOwnerStakeUnits,
            ValidatorCall::StartUnlockOwnerStakeUnits { .. } =>
                PermissionType::StartUnlockOwnerStakeUnits,
            ValidatorCall::FinishUnlockOwnerStakeUnits =>
                PermissionType::FinishUnlockOwnerStakeUnits,
            ValidatorCall::UpdateAcceptDelegatedStake { .. } =>
                PermissionType::UpdateAcceptDelegatedStake,
            ValidatorCall::SignalProtocolUpdateReadiness { .. } =>
                PermissionType::SignalProtocolUpdateReadiness,
        }
    }

    /// The permission that an access key badge needs for this call.
    pub fn permission(&self) -> (permission: PermissionType)
        ensures
            permission == self.required_permission(),
    {
        match self {
            ValidatorCall::StakeAsOwner { .. } => PermissionType::StakeAsOwner,
            ValidatorCall::Register => PermissionType::Register,
            ValidatorCall::Unregister => PermissionType::Unregister,
            ValidatorCall::UpdateKey { .. } => PermissionType::UpdateKey,
            ValidatorCall::UpdateFee { .. } => PermissionType::UpdateFee,
            ValidatorCall::LockOwnerStakeUnits { .. } => PermissionType::LockOwnerStakeUnits,
            ValidatorCall::StartUnlockOwnerStakeUnits { .. } => {
                PermissionType::StartUnlockOwnerStakeUnits
            },
            ValidatorCall::FinishUnlockOwnerStakeUnits => {
                PermissionType::FinishUnlockOwnerStakeUnits
            },
            ValidatorCall::UpdateAcceptDelegatedStake { .. } => {
                PermissionType::UpdateAcceptDelegatedStake
            },
            ValidatorCall::SignalProtocolUpdateReadiness { .. } => {
                PermissionType::SignalProtocolUpdateReadiness
            },
        }
    }
}

/// A call that has passed the proxy: it is to be made once on `validator`,
/// with the validator owner badge `badge` presented for that one call, and
/// what the validator answers goes back to the caller as it is.
#[derive(Debug, PartialEq, Eq)]
pub struct AuthorizedCall {
    pub validator: ComponentAddress,
    pub badge: NonFungibleLocalId,
    pub call: ValidatorCall,
}

} // verus!
