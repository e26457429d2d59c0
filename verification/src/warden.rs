//! The proxy itself: it keeps one validator owner badge, issues access key
//! badges, and lets the holders of those badges act on the validator as far
//! as their badge allows.

use vstd::prelude::*;
use scrypto::prelude::{
    ComponentAddress, Decimal, FungibleBucket, ResourceAddress, Secp256k1PublicKey,
};
use crate::badges::{
    AccessKeyBadge, AccessKeyBadgeData, AccessKeyVault, BadgeBucket, BadgeProof,
    NodeWardenOwnerBadgeData, OwnerBadge, ValidatorOwnerBadge, ValidatorOwnerBadgeProof,
};
use crate::error::Error;
use crate::gate::{
    authorize, authorize_owner, check_deposit, check_withdraw, proof_origin, ProofOrigin,
};
use crate::host::{
    component_address_from_hex, component_address_spelled_by, copy_local_id, same_resource,
    validator_owner_badge_resource,
};
use crate::permissions::{AccessKeyPermissions, PermissionType};
use crate::registry::AccessKeyRegistry;
use crate::roles::{
    access_key_badge_roles, access_key_badge_rules, component_roles, component_rules,
    owner_badge_roles, owner_badge_rules, ComponentRoles, ResourceRoles,
};
use crate::state::WardenState;
use crate::validator::{AuthorizedCall, ValidatorCall};

verus! {

/// What the runtime has set aside for a proxy that is about to be made: the
/// address it will live at, and the resources of which its owner badge and
/// its access key badges will be units.
#[derive(Debug, PartialEq, Eq)]
pub struct AddressReservation {
    /// The reserved global address, written out in hex digits.
    pub address: String,
    pub owner_badge_resource: ResourceAddress,
    pub access_key_badge_resource: ResourceAddress,
}

/// A proxy for one validator.
///
/// Whoever holds the owner badge can do everything. Whoever holds an access
/// key badge can do what that badge allows, for as long as it allows it. The
/// validator owner badge itself never leaves the proxy, except into the
/// owner's hands or as a proof for the holder of a badge that allows it.
pub struct NodeWarden {
    component_address: ComponentAddress,
    dapp_definition: Option<ComponentAddress>,
    /// The validator owner badge, while the proxy holds one.
    validator_owner_badge: Option<ValidatorOwnerBadge>,
    validator_owner_badge_resource: ResourceAddress,
    node_warden_owner_badge_resource: ResourceAddress,
    access_key_badges: AccessKeyRegistry,
}

impl View for NodeWarden {
    type V = WardenState;

    closed spec fn view(&self) -> WardenState {
        WardenState {
            component_address: self.component_address,
            dapp_definition: self.dapp_definition,
            owner_badge_resource: self.node_warden_owner_badge_resource,
            validator_owner_badge_resource: self.validator_owner_badge_resource,
            access_keys: self.access_key_badges@,
            custody: self.validator_owner_badge,
        }
    }
}

impl NodeWarden {
    /// Makes a proxy at an address that the runtime has just allocated for
    /// it, together with its owner badge.
    ///
    /// Nothing is made if the two badge resources are one and the same.
    pub fn new(
        dapp_definition: Option<ComponentAddress>,
        component_address: ComponentAddress,
        owner_badge_resource: ResourceAddress,
        access_key_badge_resource: ResourceAddress,
    ) -> (made: Option<(NodeWarden, OwnerBadge)>)
        ensures
            made is Some <==> owner_badge_resource != access_key_badge_resource,
            made matches Some((warden, badge)) ==> {
                &&& warden@ == WardenState::initial(
                    dapp_definition,
                    component_address,
                    owner_badge_resource,
                    access_key_badge_resource,
                    warden@.validator_owner_badge_resource,
                )
                &&& warden@.wf()
                &&& warden@.is_owner(badge.proof_of())
                &&& badge.spec_data().node_warden_component_address == component_address
            },
    {
        NodeWarden::instantiate(
            dapp_definition,
            Some(component_address),
            owner_badge_resource,
            access_key_badge_resource,
            validator_owner_badge_resource(),
        )
    }

    /// Makes a proxy at a reserved address, together with its owner badge.
    ///
    /// Nothing is made if the reserved address is not that of a component,
    /// or if the two badge resources are one and the same.
    pub fn new_with_address_reservation(
        dapp_definition: Option<ComponentAddress>,
        address_reservation: AddressReservation,
    ) -> (made: Option<(NodeWarden, OwnerBadge)>)
        ensures
            made is Some <==> component_address_spelled_by(address_reservation.address@) is Some
                && address_reservation.owner_badge_resource
                != address_reservation.access_key_badge_resource,
            made matches Some((warden, badge)) ==> {
                &&& warden@ == WardenState::initial(
                    dapp_definition,
                    component_address_spelled_by(address_reservation.address@)->Some_0,
                    address_reservation.owner_badge_resource,
                    address_reservation.access_key_badge_resource,
                    warden@.validator_owner_badge_resource,
                )
                &&& warden@.wf()
                &&& warden@.is_owner(badge.proof_of())
                &&& badge.spec_data().node_warden_component_address == warden@.component_address
            },
    {
        let component_address = component_address_from_hex(address_reservation.address.as_str());
        NodeWarden::instantiate(
            dapp_definition,
            component_address,
            address_reservation.owner_badge_resource,
            address_reservation.access_key_badge_resource,
            validator_owner_badge_resource(),
        )
    }

    /// Makes a proxy and its owner badge from what the runtime has provided:
    /// the component address that the reserved address stands for, if it
    /// stands for one, the two badge resources, and the resource of validator
    /// owner badges.
    ///
    /// The proxy starts out holding no validator owner badge and with no
    /// access key badge issued. The owner badge names the proxy in its data.
    pub fn instantiate(
        dapp_definition: Option<ComponentAddress>,
        component_address: Option<ComponentAddress>,
        owner_badge_resource: ResourceAddress,
        access_key_badge_resource: ResourceAddress,
        validator_owner_badge_resource: ResourceAddress,
    ) -> (made: Option<(NodeWarden, OwnerBadge)>)
        ensures
            made is Some <==> component_address is Some && owner_badge_resource
                != access_key_badge_resource,
            made matches Some((warden, badge)) ==> {
                &&& warden@ == WardenState::initial(
                    dapp_definition,
                    component_address->Some_0,
                    owner_badge_resource,
                    access_key_badge_resource,
                    validator_owner_badge_resource,
                )
                &&& warden@.wf()
                &&& badge.proof_of() == BadgeProof {
                    resource_address: owner_badge_resource,
                    local_id: 0,
                }
                &&& badge.spec_data() == NodeWardenOwnerBadgeData {
                    node_warden_component_address: component_address->Some_0,
                }
            },
    {
        let component_address = match component_address {
            Some(address) => address,
            None => {
                return None;
            },
        };
        if same_resource(&owner_badge_resource, &access_key_badge_resource) {
            return None;
        }
        let badge = OwnerBadge::mint(owner_badge_resource, 0, component_address);
        let warden = NodeWarden {
            component_address,
            dapp_definition,
            validator_owner_badge: None,
            validator_owner_badge_resource,
            node_warden_owner_badge_resource: owner_badge_resource,
            access_key_badges: AccessKeyRegistry::new(access_key_badge_resource),
        };
        Some((warden, badge))
    }

    /// The address of the proxy.
    pub fn component_address(&self) -> (address: ComponentAddress)
        ensures
            address == self@.component_address,
    {
        self.component_address
    }

    /// The dApp that the proxy and its badges are linked to, if any.
    pub fn dapp_definition(&self) -> (dapp: Option<ComponentAddress>)
        ensures
            dapp == self@.dapp_definition,
    {
        self.dapp_definition
    }

    /// The resource of the owner badge.
    pub fn owner_badge_resource(&self) -> (address: ResourceAddress)
        ensures
            address == self@.owner_badge_resource,
    {
        self.node_warden_owner_badge_resource
    }

    /// The resource of the access key badges.
    pub fn access_key_badge_resource(&self) -> (address: ResourceAddress)
        ensures
            address == self@.access_keys.resource_address,
    {
        self.access_key_badges.address()
    }

    /// The resource of which the proxy accepts one unit for safe keeping.
    pub fn validator_owner_badge_resource(&self) -> (address: ResourceAddress)
        ensures
            address == self@.validator_owner_badge_resource,
    {
        self.validator_owner_badge_resource
    }

    /// The rules under which the owner badge resource of this proxy is
    /// created.
    pub fn owner_badge_roles(&self) -> (roles: ResourceRoles)
        ensures
            roles == owner_badge_rules(self@.component_address),
    {
        owner_badge_roles(self.component_address)
    }

    /// The rules under which the access key badge resource of this proxy is
    /// created.
    pub fn access_key_badge_roles(&self) -> (roles: ResourceRoles)
        ensures
            roles == access_key_badge_rules(
                self@.component_address,
                self@.owner_badge_resource,
            ),
    {
        access_key_badge_roles(self.component_address, self.node_warden_owner_badge_resource)
    }

    /// The roles under which this proxy is made global.
    pub fn component_roles(&self) -> (roles: ComponentRoles)
        ensures
            roles == component_rules(
                self@.component_address,
                self@.owner_badge_resource,
                self@.access_keys.resource_address,
            ),
    {
        component_roles(
            self.component_address,
            self.node_warden_owner_badge_resource,
            self.access_key_badges.address(),
        )
    }

    /// The validator that the proxy manages at the moment. There is none
    /// while the proxy holds no validator owner badge.
    pub fn validator_address(&self) -> (address: Option<ComponentAddress>)
        ensures
            address == self@.validator_address(),
    {
        match &self.validator_owner_badge {
            Some(badge) => Some(badge.data.validator),
            None => None,
        }
    }

    /// Whether the proxy holds a validator owner badge.
    pub fn is_bound(&self) -> (bound: bool)
        ensures
            bound == self@.is_bound(),
    {
        self.validator_owner_badge.is_some()
    }

    /// How many validator owner badges the proxy holds: one or none.
    pub fn held_quantity(&self) -> (held: usize)
        ensures
            held == self@.held_quantity(),
    {
        if self.validator_owner_badge.is_some() {
            1
        } else {
            0
        }
    }

    /// The data of the access key badge with the given local id, if the
    /// proxy has issued such a badge and it still exists.
    pub fn access_key_badge_data(&self, local_id: u64) -> (data: Option<AccessKeyBadgeData>)
        ensures
            data == self@.access_keys.get(local_id as nat),
    {
        self.access_key_badges.get(local_id)
    }

    /// Issues an access key badge with the given permissions. Owner only.
    ///
    /// With the owner badge this always succeeds. The new badge names this
    /// proxy in its data and gets a local id that no badge had before.
    pub fn create_access_key_badge(
        &mut self,
        proof: BadgeProof,
        permissions: AccessKeyPermissions,
    ) -> (issued: Result<AccessKeyBadge, Error>)
        ensures
            issued is Ok <==> old(self)@.is_owner(proof),
            issued matches Ok(badge) ==> {
                &&& badge.spec_resource_address() == old(self)@.access_keys.resource_address
                &&& badge.spec_local_id() as nat == old(self)@.access_keys.minted
            },
            issued matches Err(refusal) ==> refusal == Error::UnauthorizedProof,
            final(self)@ == old(self)@.after_issue(proof, permissions),
            old(self)@.wf() ==> final(self)@.wf(),
    {
        if let Err(refusal) = self.check_owner(proof) {
            return Err(refusal);
        }
        let data = AccessKeyBadgeData {
            node_warden_component_address: self.component_address,
            permissions,
        };
        let local_id = self.access_key_badges.mint(data);
        Ok(AccessKeyBadge::mint(self.access_key_badges.address(), local_id))
    }

    /// Sets one flag of an existing access key badge. Owner only.
    ///
    /// `permission` is the snake-case name of the action. Any other text is
    /// refused with `InvalidAction`, and a local id that no existing badge
    /// has with `UnknownToken`.
    pub fn update_access_key_badge_permissions(
        &mut self,
        proof: BadgeProof,
        access_key_badge_local_id: u64,
        permission: &str,
        allow: bool,
    ) -> (outcome: Result<(), Error>)
        ensures
            outcome == match old(self)@.update_verdict(
                proof,
                access_key_badge_local_id as nat,
                permission@,
            ) {
                Ok(_) => Ok::<(), Error>(()),
                Err(refusal) => Err::<(), Error>(refusal),
            },
            final(self)@ == old(self)@.after_update(
                proof,
                access_key_badge_local_id as nat,
                permission@,
                allow,
            ),
            old(self)@.wf() ==> final(self)@.wf(),
    {
        if let Err(refusal) = self.check_owner(proof) {
            return Err(refusal);
        }
        let mut data = match self.access_key_badges.get(access_key_badge_local_id) {
            Some(data) => data,
            None => {
                return Err(Error::UnknownToken);
            },
        };
        let action = match PermissionType::from_str(permission) {
            Ok(action) => action,
            Err(refusal) => {
                return Err(refusal);
            },
        };
        data.permissions.update_permission(action, allow);
        self.access_key_badges.update_permissions(access_key_badge_local_id, data.permissions);
        Ok(())
    }

    /// Takes the one access key badge out of somebody's store, whether or not
    /// that somebody agrees. Owner only.
    ///
    /// The store must hold exactly one badge, and that badge must be one of
    /// this proxy's.
    pub fn recall_key_badge(&self, proof: BadgeProof, vault: &mut AccessKeyVault) -> (recalled:
        Result<AccessKeyBadge, Error>)
        ensures
            recalled == match self@.recall_verdict(proof, old(vault).badges@) {
                Ok(()) => Ok::<AccessKeyBadge, Error>(old(vault).badges@[0]),
                Err(refusal) => Err::<AccessKeyBadge, Error>(refusal),
            },
            final(vault).badges@ == self@.store_after_recall(proof, old(vault).badges@),
    {
        if let Err(refusal) = self.check_owner(proof) {
            return Err(refusal);
        }
        if vault.badges.len() != 1 {
            return Err(Error::WrongQuantity);
        }
        let access_key_badge_resource = self.access_key_badges.address();
        if !same_resource(&vault.badges[0].resource_address(), &access_key_badge_resource) {
            return Err(Error::WrongCredentialType);
        }
        let badge = vault.badges.pop().unwrap();
        assert(vault.badges@ =~= Seq::<AccessKeyBadge>::empty());
        Ok(badge)
    }

    /// Burns an access key badge. Anyone who holds the badge can do so.
    ///
    /// From then on the badge's local id names no badge.
    pub fn burn_key_badge(&mut self, key_badge: AccessKeyBadge) -> (outcome: Result<(), Error>)
        ensures
            outcome == old(self)@.burn_verdict(
                key_badge.spec_resource_address(),
                key_badge.spec_local_id() as nat,
            ),
            final(self)@ == old(self)@.after_burn(
                key_badge.spec_resource_address(),
                key_badge.spec_local_id() as nat,
            ),
            old(self)@.wf() ==> final(self)@.wf(),
    {
        let access_key_badge_resource = self.access_key_badges.address();
        if !same_resource(&key_badge.resource_address(), &access_key_badge_resource) {
            return Err(Error::WrongCredentialType);
        }
        if self.access_key_badges.burn(key_badge.local_id()) {
            Ok(())
        } else {
            Err(Error::UnknownToken)
        }
    }

    /// Takes a validator owner badge in for safe keeping. Owner only.
    ///
    /// The proxy must hold none yet, and the bucket must hold exactly one
    /// unit of the resource of validator owner badges. From then on the proxy
    /// manages the validator that the badge names in its data.
    pub fn deposit_validator_owner_badge(&mut self, proof: BadgeProof, bucket: BadgeBucket) -> (outcome:
        Result<(), Error>)
        ensures
            outcome == old(self)@.deposit_verdict(proof, bucket@),
            final(self)@ == old(self)@.after_deposit(proof, bucket@),
            old(self)@.wf() ==> final(self)@.wf(),
    {
        if let Err(refusal) = self.check_owner(proof) {
            return Err(refusal);
        }
        if let Err(refusal) = check_deposit(
            self.held_quantity(),
            &bucket.resource_address,
            &self.validator_owner_badge_resource,
            bucket.badges.len(),
        ) {
            return Err(refusal);
        }
        let mut badges = bucket.badges;
        self.validator_owner_badge = badges.pop();
        Ok(())
    }

    /// Hands the validator owner badge back. Owner only.
    ///
    /// The bucket that comes out holds the very badge that was taken in.
    /// From then on the proxy manages no validator.
    pub fn withdraw_validator_owner_badge(&mut self, proof: BadgeProof) -> (withdrawn: Result<
        BadgeBucket,
        Error,
    >)
        ensures
            match old(self)@.withdraw_verdict(proof) {
                Ok(()) => withdrawn matches Ok(bucket) && bucket@ == old(self)@.held(),
                Err(refusal) => withdrawn == Err::<BadgeBucket, Error>(refusal),
            },
            final(self)@ == old(self)@.after_withdraw(proof),
            old(self)@.wf() ==> final(self)@.wf(),
    {
        if let Err(refusal) = self.check_owner(proof) {
            return Err(refusal);
        }
        if let Err(refusal) = check_withdraw(self.held_quantity()) {
            return Err(refusal);
        }
        let mut badges = Vec::new();
        badges.push(self.validator_owner_badge.take().unwrap());
        Ok(BadgeBucket { resource_address: self.validator_owner_badge_resource, badges })
    }

    /// Passes `stake_as_owner` on to the validator: stakes XRD even where the
    /// validator accepts no delegated stake. The validator answers with a
    /// bucket of stake units.
    pub fn stake_as_owner(&self, proof: BadgeProof, stake: FungibleBucket) -> (passed: Result<
        AuthorizedCall,
        Error,
    >)
        ensures
            passed == self@.dispatch(proof, ValidatorCall::StakeAsOwner { stake }),
    {
        self.pass_on(proof, ValidatorCall::StakeAsOwner { stake })
    }

    /// Passes `register` on to the validator: makes it available to take part
    /// in consensus.
    pub fn register(&self, proof: BadgeProof) -> (passed: Result<AuthorizedCall, Error>)
        ensures
            passed == self@.dispatch(proof, ValidatorCall::Register),
    {
        self.pass_on(proof, ValidatorCall::Register)
    }

    /// Passes `unregister` on to the validator.
    pub fn unregister(&self, proof: BadgeProof) -> (passed: Result<AuthorizedCall, Error>)
        ensures
            passed == self@.dispatch(proof, ValidatorCall::Unregister),
    {
        self.pass_on(proof, ValidatorCall::Unregister)
    }

    /// Passes `update_key` on to the validator: replaces its consensus key.
    pub fn update_key(&self, proof: BadgeProof, key: Secp256k1PublicKey) -> (passed: Result<
        AuthorizedCall,
        Error,
    >)
        ensures
            passed == self@.dispatch(proof, ValidatorCall::UpdateKey { key }),
    {
        self.pass_on(proof, ValidatorCall::UpdateKey { key })
    }

    /// Passes `update_fee` on to the validator: asks for a new fee factor,
    /// a fraction between zero and one.
    pub fn update_fee(&self, proof: BadgeProof, new_fee_factor: Decimal) -> (passed: Result<
        AuthorizedCall,
        Error,
    >)
        ensures
            passed == self@.dispatch(proof, ValidatorCall::UpdateFee { new_fee_factor }),
    {
        self.pass_on(proof, ValidatorCall::UpdateFee { new_fee_factor })
    }

    /// Passes `lock_owner_stake_units` on to the validator: locks stake units
    /// away as a sign of the owner's commitment.
    pub fn lock_owner_stake_units(
        &self,
        proof: BadgeProof,
        stake_unit_bucket: FungibleBucket,
    ) -> (passed: Result<AuthorizedCall, Error>)
        ensures
            passed == self@.dispatch(
                proof,
                ValidatorCall::LockOwnerStakeUnits { stake_unit_bucket },
            ),
    {
        self.pass_on(proof, ValidatorCall::LockOwnerStakeUnits { stake_unit_bucket })
    }

    /// Passes `start_unlock_owner_stake_units` on to the validator: the given
    /// amount becomes available after the delay that the network sets.
    pub fn start_unlock_owner_stake_units(
        &self,
        proof: BadgeProof,
        requested_stake_unit_amount: Decimal,
    ) -> (passed: Result<AuthorizedCall, Error>)
        ensures
            passed == self@.dispatch(
                proof,
                ValidatorCall::StartUnlockOwnerStakeUnits { requested_stake_unit_amount },
            ),
    {
        self.pass_on(
            proof,
            ValidatorCall::StartUnlockOwnerStakeUnits { requested_stake_unit_amount },
        )
    }

    /// Passes `finish_unlock_owner_stake_units` on to the validator, which
    /// answers with a bucket of the stake units that have become available.
    pub fn finish_unlock_owner_stake_units(&self, proof: BadgeProof) -> (passed: Result<
        AuthorizedCall,
        Error,
    >)
        ensures
            passed == self@.dispatch(proof, ValidatorCall::FinishUnlockOwnerStakeUnits),
    {
        self.pass_on(proof, ValidatorCall::FinishUnlockOwnerStakeUnits)
    }

    /// Passes `update_accept_delegated_stake` on to the validator.
    pub fn update_accept_delegated_stake(
        &self,
        proof: BadgeProof,
        accept_delegated_stake: bool,
    ) -> (passed: Result<AuthorizedCall, Error>)
        ensures
            passed == self@.dispatch(
                proof,
                ValidatorCall::UpdateAcceptDelegatedStake { accept_delegated_stake },
            ),
    {
        self.pass_on(proof, ValidatorCall::UpdateAcceptDelegatedStake { accept_delegated_stake })
    }

    /// Passes `signal_protocol_update_readiness` on to the validator: tells
    /// the ledger which protocol version the validator is ready for.
    pub fn signal_protocol_update_readiness(
        &self,
        proof: BadgeProof,
        protocol_version_name: String,
    ) -> (passed: Result<AuthorizedCall, Error>)
        ensures
            passed == self@.dispatch(
                proof,
                ValidatorCall::SignalProtocolUpdateReadiness { protocol_version_name },
            ),
    {
        self.pass_on(
            proof,
            ValidatorCall::SignalProtocolUpdateReadiness { protocol_version_name },
        )
    }

    /// Makes a proof of the validator owner badge itself.
    ///
    /// Whoever gets this proof can call any method of the validator for the
    /// rest of the transaction, changing fees and withdrawing stake units
    /// included. A badge that allows this allows everything.
    pub fn create_validator_owner_badge_proof(&self, proof: BadgeProof) -> (made: Result<
        ValidatorOwnerBadgeProof,
        Error,
    >)
        ensures
            made == self@.badge_proof(proof),
    {
        if let Err(refusal) = self.check_proof(
            proof,
            PermissionType::CreateValidatorOwnerBadgeProof,
        ) {
            return Err(refusal);
        }
        match &self.validator_owner_badge {
            None => Err(Error::NotBound),
            Some(badge) => Ok(
                ValidatorOwnerBadgeProof {
                    resource_address: self.validator_owner_badge_resource,
                    local_id: copy_local_id(&badge.local_id),
                },
            ),
        }
    }

    /// Checks the caller's proof for `call` and, if it passes, lets the call
    /// through in the name of the validator owner badge.
    pub fn pass_on(&self, proof: BadgeProof, call: ValidatorCall) -> (passed: Result<
        AuthorizedCall,
        Error,
    >)
        ensures
            passed == self@.dispatch(proof, call),
    {
        if let Err(refusal) = self.check_proof(proof, call.permission()) {
            return Err(refusal);
        }
        self.do_with_validator_owner_badge_proof(call)
    }

    /// Lets a call through in the name of the validator owner badge: the
    /// badge is presented for this one call on the validator that it names.
    /// Without a badge there is nothing to present, and the call is refused
    /// with `NotBound`.
    pub fn do_with_validator_owner_badge_proof(&self, call: ValidatorCall) -> (elevated: Result<
        AuthorizedCall,
        Error,
    >)
        ensures
            elevated == self@.elevate(call),
    {
        match &self.validator_owner_badge {
            None => Err(Error::NotBound),
            Some(badge) => Ok(
                AuthorizedCall {
                    validator: badge.data.validator,
                    badge: copy_local_id(&badge.local_id),
                    call,
                },
            ),
        }
    }

    /// Checks a proof against the permission that an action needs.
    ///
    /// A proof of the owner badge passes. A proof of an access key badge
    /// passes if the badge allows the action at this moment. Any other proof
    /// is refused.
    pub fn check_proof(&self, proof: BadgeProof, permission_type: PermissionType) -> (outcome:
        Result<(), Error>)
        ensures
            outcome == self@.check_proof(proof, permission_type),
    {
        let access_key_badge_resource = self.access_key_badges.address();
        let origin = proof_origin(
            &proof.resource_address,
            &self.node_warden_owner_badge_resource,
            &access_key_badge_resource,
        );
        match origin {
            ProofOrigin::OwnerBadge => authorize(origin, None, permission_type),
            ProofOrigin::AccessKeyBadge => match self.access_key_badges.get(proof.local_id) {
                Some(data) => authorize(origin, Some(&data.permissions), permission_type),
                None => authorize(origin, None, permission_type),
            },
            ProofOrigin::Foreign => authorize(origin, None, permission_type),
        }
    }

    /// Checks a proof for an operation that is the owner's alone: only a
    /// proof of the owner badge passes.
    pub fn check_owner(&self, proof: BadgeProof) -> (outcome: Result<(), Error>)
        ensures
            outcome == self@.check_owner(proof),
            outcome is Ok <==> self@.is_owner(proof),
            outcome is Err ==> outcome == Err::<(), Error>(Error::UnauthorizedProof),
    {
        let access_key_badge_resource = self.access_key_badges.address();
        authorize_owner(
            proof_origin(
                &proof.resource_address,
                &self.node_warden_owner_badge_resource,
                &access_key_badge_resource,
            ),
        )
    }
}

} // verus!
