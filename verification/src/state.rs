//! The state of a proxy and its transitions, as mathematics.
//!
//! Every operation of the proxy is described here twice over: by the verdict
//! on the request, and by the state that the request leaves behind. A refused
//! request leaves the state as it was.

use vstd::prelude::*;
use scrypto::prelude::{ComponentAddress, ResourceAddress};
use crate::badges::{
    AccessKeyBadge, AccessKeyBadgeData, BadgeProof, BucketContents, ValidatorOwnerBadge,
    ValidatorOwnerBadgeProof,
};
use crate::error::Error;
use crate::gate::{
    deposit_verdict, origin_of, owner_verdict, verdict, withdraw_verdict, ProofOrigin,
};
use crate::permissions::{AccessKeyPermissions, PermissionType};
use crate::registry::RegistryState;
use crate::validator::{AuthorizedCall, ValidatorCall};

verus! {

/// The state of a proxy, as mathematics.
pub struct WardenState {
    /// The address of the proxy.
    pub component_address: ComponentAddress,
    /// The dApp that the proxy and its badges are linked to, if any.
    pub dapp_definition: Option<ComponentAddress>,
    /// The resource of the owner badge.
    pub owner_badge_resource: ResourceAddress,
    /// The resource of which the proxy accepts one unit for safe keeping.
    pub validator_owner_badge_resource: ResourceAddress,
    /// The access key badges that the proxy has issued.
    pub access_keys: RegistryState,
    /// The validator owner badge that the proxy holds, if it holds one.
    pub custody: Option<ValidatorOwnerBadge>,
}

impl WardenState {
    /// What holds of every proxy: its owner badge and its access key badges
    /// are of different resources, and every access key badge names the proxy
    /// as its issuer.
    pub open spec fn wf(self) -> bool {
        &&& self.owner_badge_resource != self.access_keys.resource_address
        &&& self.access_keys.wf()
        &&& forall|id: nat| #[trigger]
            self.access_keys.live.contains_key(id)
                ==> self.access_keys.live[id].node_warden_component_address
                == self.component_address
    }

    /// The state of a proxy that has just been made.
    pub open spec fn initial(
        dapp_definition: Option<ComponentAddress>,
        component_address: ComponentAddress,
        owner_badge_resource: ResourceAddress,
        access_key_badge_resource: ResourceAddress,
        validator_owner_badge_resource: ResourceAddress,
    ) -> WardenState {
        WardenState {
            component_address,
            dapp_definition,
            owner_badge_resource,
            validator_owner_badge_resource,
            access_keys: RegistryState::empty(access_key_badge_resource),
            custody: None,
        }
    }

    /// Whether a validator owner badge is held.
    pub open spec fn is_bound(self) -> bool {
        self.custody is Some
    }

    /// How many validator owner badges are held: one or none.
    pub open spec fn held_quantity(self) -> nat {
        if self.custody is Some {
            1
        } else {
            0
        }
    }

    /// The validator that the held badge controls.
    pub open spec fn validator_address(self) -> Option<ComponentAddress> {
        match self.custody {
            Some(badge) => Some(badge.data.validator),
            None => None,
        }
    }

    /// Where a proof comes from, as far as this proxy is concerned.
    pub open spec fn origin(self, proof: BadgeProof) -> ProofOrigin {
        origin_of(
            proof.resource_address,
            self.owner_badge_resource,
            self.access_keys.resource_address,
        )
    }

    /// Whether the proof is of the owner badge.
    pub open spec fn is_owner(self, proof: BadgeProof) -> bool {
        proof.resource_address == self.owner_badge_resource
    }

    /// Whether the proof is of an access key badge that exists.
    pub open spec fn is_access_key(self, proof: BadgeProof) -> bool {
        &&& self.origin(proof) == ProofOrigin::AccessKeyBadge
        &&& self.access_keys.live.contains_key(proof.local_id as nat)
    }

    /// What the badge with the proof's local id allows, if the proxy has
    /// issued such a badge and it still exists.
    pub open spec fn permissions_of(self, proof: BadgeProof) -> Option<AccessKeyPermissions> {
        match self.access_keys.get(proof.local_id as nat) {
            Some(data) => Some(data.permissions),
            None => None,
        }
    }

    /// The verdict of the proxy on a request for `action` made with `proof`.
    pub open spec fn check_proof(self, proof: BadgeProof, action: PermissionType) -> Result<
        (),
        Error,
    > {
        verdict(self.origin(proof), self.permissions_of(proof), action)
    }

    /// The verdict of the proxy on a request for an operation that is the
    /// owner's alone.
    pub open spec fn check_owner(self, proof: BadgeProof) -> Result<(), Error> {
        owner_verdict(self.origin(proof))
    }

    /// The data with which the proxy issues an access key badge.
    pub open spec fn badge_data(self, permissions: AccessKeyPermissions) -> AccessKeyBadgeData {
        AccessKeyBadgeData { node_warden_component_address: self.component_address, permissions }
    }

    /// The state after an access key badge with the given permissions was
    /// issued.
    pub open spec fn issue(self, permissions: AccessKeyPermissions) -> WardenState {
        WardenState { access_keys: self.access_keys.mint(self.badge_data(permissions)), ..self }
    }

    /// The state that a request for a new access key badge leaves behind.
    pub open spec fn after_issue(
        self,
        proof: BadgeProof,
        permissions: AccessKeyPermissions,
    ) -> WardenState {
        if self.check_owner(proof) is Ok {
            self.issue(permissions)
        } else {
            self
        }
    }

    /// The verdict on a request to set the flag of the action named `name`
    /// on the access key badge with local id `id`.
    pub open spec fn update_verdict(self, proof: BadgeProof, id: nat, name: Seq<char>) -> Result<
        PermissionType,
        Error,
    > {
        if self.check_owner(proof) is Err {
            Err(Error::UnauthorizedProof)
        } else if !self.access_keys.live.contains_key(id) {
            Err(Error::UnknownToken)
        } else {
            match PermissionType::named_by(name) {
                None => Err(Error::InvalidAction),
                Some(action) => Ok(action),
            }
        }
    }

    /// The state after the flag of `action` was set to `allow` on the access
    /// key badge with local id `id`.
    pub open spec fn set_permission(self, id: nat, action: PermissionType, allow: bool) -> WardenState
        recommends
            self.access_keys.live.contains_key(id),
    {
        WardenState {
            access_keys: self.access_keys.set_permissions(
                id,
                self.access_keys.live[id].permissions.with(action, allow),
            ),
            ..self
        }
    }

    /// The state that a request to set the flag of the action named `name`
    /// leaves behind.
    pub open spec fn after_update(
        self,
        proof: BadgeProof,
        id: nat,
        name: Seq<char>,
        allow: bool,
    ) -> WardenState {
        match self.update_verdict(proof, id, name) {
            Ok(action) => self.set_permission(id, action, allow),
            Err(_) => self,
        }
    }

    /// The verdict on a request to burn an access key badge.
    pub open spec fn burn_verdict(self, resource_address: ResourceAddress, id: nat) -> Result<
        (),
        Error,
    > {
        if resource_address != self.access_keys.resource_address {
            Err(Error::WrongCredentialType)
        } else if !self.access_keys.live.contains_key(id) {
            Err(Error::UnknownToken)
        } else {
            Ok(())
        }
    }

    /// The state after the access key badge with local id `id` was burnt.
    pub open spec fn burn(self, id: nat) -> WardenState {
        WardenState { access_keys: self.access_keys.burn(id), ..self }
    }

    /// The state that a request to burn an access key badge leaves behind.
    pub open spec fn after_burn(self, resource_address: ResourceAddress, id: nat) -> WardenState {
        if self.burn_verdict(resource_address, id) is Ok {
            self.burn(id)
        } else {
            self
        }
    }

    /// The verdict on a request to take the badge out of somebody's store.
    pub open spec fn recall_verdict(self, proof: BadgeProof, stored: Seq<AccessKeyBadge>) -> Result<
        (),
        Error,
    > {
        if self.check_owner(proof) is Err {
            Err(Error::UnauthorizedProof)
        } else if stored.len() != 1 {
            Err(Error::WrongQuantity)
        } else if stored[0].spec_resource_address() != self.access_keys.resource_address {
            Err(Error::WrongCredentialType)
        } else {
            Ok(())
        }
    }

    /// What somebody's store holds after a request to take the badge out of
    /// it.
    pub open spec fn store_after_recall(
        self,
        proof: BadgeProof,
        stored: Seq<AccessKeyBadge>,
    ) -> Seq<AccessKeyBadge> {
        if self.recall_verdict(proof, stored) is Ok {
            Seq::empty()
        } else {
            stored
        }
    }

    /// The verdict on an offer of a bucket for safe keeping.
    pub open spec fn deposit_verdict(self, proof: BadgeProof, offered: BucketContents) -> Result<
        (),
        Error,
    > {
        if self.check_owner(proof) is Err {
            Err(Error::UnauthorizedProof)
        } else {
            deposit_verdict(
                self.held_quantity(),
                offered.resource_address,
                self.validator_owner_badge_resource,
                offered.badges.len(),
            )
        }
    }

    /// The state after the badge was taken in.
    pub open spec fn deposit(self, badge: ValidatorOwnerBadge) -> WardenState {
        WardenState { custody: Some(badge), ..self }
    }

    /// The state that an offer of a bucket for safe keeping leaves behind.
    pub open spec fn after_deposit(self, proof: BadgeProof, offered: BucketContents) -> WardenState {
        if self.deposit_verdict(proof, offered) is Ok {
            self.deposit(offered.badges[0])
        } else {
            self
        }
    }

    /// The verdict on a request to hand the held badge back.
    pub open spec fn withdraw_verdict(self, proof: BadgeProof) -> Result<(), Error> {
        if self.check_owner(proof) is Err {
            Err(Error::UnauthorizedProof)
        } else {
            withdraw_verdict(self.held_quantity())
        }
    }

    /// What the bucket holds in which the held badge is handed back.
    pub open spec fn held(self) -> BucketContents
        recommends
            self.is_bound(),
    {
        BucketContents {
            resource_address: self.validator_owner_badge_resource,
            badges: seq![self.custody->Some_0],
        }
    }

    /// The state after the held badge was handed back.
    pub open spec fn withdraw(self) -> WardenState {
        WardenState { custody: None, ..self }
    }

    /// The state that a request to hand the held badge back leaves behind.
    pub open spec fn after_withdraw(self, proof: BadgeProof) -> WardenState {
        if self.withdraw_verdict(proof) is Ok {
            self.withdraw()
        } else {
            self
        }
    }

    /// What becomes of a call once the caller has passed: with a badge held
    /// it goes to the validator of that badge, in the badge's name.
    pub open spec fn elevate(self, call: ValidatorCall) -> Result<AuthorizedCall, Error> {
        match self.custody {
            None => Err(Error::NotBound),
            Some(badge) => Ok(
                AuthorizedCall { validator: badge.data.validator, badge: badge.local_id, call },
            ),
        }
    }

    /// What becomes of a call on the validator that is made with `proof`.
    pub open spec fn dispatch(self, proof: BadgeProof, call: ValidatorCall) -> Result<
        AuthorizedCall,
        Error,
    > {
        match self.check_proof(proof, call.required_permission()) {
            Err(refusal) => Err(refusal),
            Ok(()) => self.elevate(call),
        }
    }

    /// What becomes of a request for a proof of the held badge itself.
    pub open spec fn badge_proof(self, proof: BadgeProof) -> Result<
        ValidatorOwnerBadgeProof,
        Error,
    > {
        match self.check_proof(proof, PermissionType::CreateValidatorOwnerBadgeProof) {
            Err(refusal) => Err(refusal),
            Ok(()) => match self.custody {
                None => Err(Error::NotBound),
                Some(badge) => Ok(
                    ValidatorOwnerBadgeProof {
                        resource_address: self.validator_owner_badge_resource,
                        local_id: badge.local_id,
                    },
                ),
            },
        }
    }
}

} // verus!
