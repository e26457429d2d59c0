//! Badges, the data they carry, and the buckets, stores and proofs in which
//! they are handed around.
//!
//! On the ledger these are resources that the runtime keeps track of. Here
//! each is a plain value that holds what the proxy reads of it.

use vstd::prelude::*;
use scrypto::prelude::{ComponentAddress, NonFungibleLocalId, ResourceAddress};
use crate::permissions::AccessKeyPermissions;

verus! {

/// The data of the owner badge of a proxy.
#[derive(Clone, Copy, Debug, PartialEq, Eq)]
pub struct NodeWardenOwnerBadgeData {
    /// The proxy that the badge owns.
    pub node_warden_component_address: ComponentAddress,
}

/// The data of an access key badge.
#[derive(Clone, Copy, Debug, PartialEq, Eq)]
pub struct AccessKeyBadgeData {
    /// The proxy that issued the badge, and the only one that honours it.
    pub node_warden_component_address: ComponentAddress,
    /// What the badge allows. The owner of the proxy can change it while the
    /// badge is in someone else's hands.
    pub permissions: AccessKeyPermissions,
}

/// The data of a validator owner badge.
#[derive(Debug, PartialEq, Eq)]
pub struct ValidatorOwnerBadgeData {
    pub name: String,
    /// The validator that the badge controls.
    pub validator: ComponentAddress,
}

/// What a presented proof shows: the resource of the badge it was made from
/// and the badge's local id. That the proof is genuine is for the runtime to
/// establish before the proxy sees it.
#[derive(Clone, Copy, Debug, PartialEq, Eq)]
pub struct BadgeProof {
    pub resource_address: ResourceAddress,
    pub local_id: u64,
}

/// The owner badge of a proxy. There is one for each proxy, made together
/// with it.
#[derive(Debug, PartialEq, Eq)]
pub struct OwnerBadge {
    resource_address: ResourceAddress,
    local_id: u64,
    data: NodeWardenOwnerBadgeData,
}

impl OwnerBadge {
    pub closed spec fn spec_resource_address(&self) -> ResourceAddress {
        self.resource_address
    }

    pub closed spec fn spec_local_id(&self) -> u64 {
        self.local_id
    }

    pub closed spec fn spec_data(&self) -> NodeWardenOwnerBadgeData {
        self.data
    }

    /// What a proof made from this badge shows.
    pub open spec fn proof_of(&self) -> BadgeProof {
        BadgeProof {
            resource_address: self.spec_resource_address(),
            local_id: self.spec_local_id(),
        }
    }

    /// The owner badge of the proxy at `component_address`.
    pub(crate) fn mint(
        resource_address: ResourceAddress,
        local_id: u64,
        component_address: ComponentAddress,
    ) -> (badge: OwnerBadge)
        ensures
            badge.spec_resource_address() == resource_address,
            badge.spec_local_id() == local_id,
            badge.spec_data() == (NodeWardenOwnerBadgeData {
                node_warden_component_address: component_address,
            }),
    {
        OwnerBadge {
            resource_address,
            local_id,
            data: NodeWardenOwnerBadgeData { node_warden_component_address: component_address },
        }
    }

    #[verifier::when_used_as_spec(spec_resource_address)]
    pub fn resource_address(&self) -> (address: ResourceAddress)
        ensures
            address == self.spec_resource_address(),
    {
        self.resource_address
    }

    #[verifier::when_used_as_spec(spec_local_id)]
    pub fn local_id(&self) -> (id: u64)
        ensures
            id == self.spec_local_id(),
    {
        self.local_id
    }

    #[verifier::when_used_as_spec(spec_data)]
    pub fn data(&self) -> (data: NodeWardenOwnerBadgeData)
        ensures
            data == self.spec_data(),
    {
        self.data
    }

    /// Makes a proof of holding this badge.
    pub fn create_proof(&self) -> (proof: BadgeProof)
        ensures
            proof == self.proof_of(),
    {
        BadgeProof { resource_address: self.resource_address, local_id: self.local_id }
    }
}

/// An access key badge. Its data stays with the proxy that issued it, under
/// the badge's local id.
#[derive(Debug, PartialEq, Eq)]
pub struct AccessKeyBadge {
    resource_address: ResourceAddress,
    local_id: u64,
}

impl AccessKeyBadge {
    pub closed spec fn spec_resource_address(&self) -> ResourceAddress {
        self.resource_address
    }

    pub closed spec fn spec_local_id(&self) -> u64 {
        self.local_id
    }

    /// What a proof made from this badge shows.
    pub open spec fn proof_of(&self) -> BadgeProof {
        BadgeProof {
            resource_address: self.spec_resource_address(),
            local_id: self.spec_local_id(),
        }
    }

    /// The access key badge with the given local id.
    pub(crate) fn mint(resource_address: ResourceAddress, local_id: u64) -> (badge: AccessKeyBadge)
        ensures
            badge.spec_resource_address() == resource_address,
            badge.spec_local_id() == local_id,
    {
        AccessKeyBadge { resource_address, local_id }
    }

    #[verifier::when_used_as_spec(spec_resource_address)]
    pub fn resource_address(&self) -> (address: ResourceAddress)
        ensures
            address == self.spec_resource_address(),
    {
        self.resource_address
    }

    #[verifier::when_used_as_spec(spec_local_id)]
    pub fn local_id(&self) -> (id: u64)
        ensures
            id == self.spec_local_id(),
    {
        self.local_id
    }

    /// Makes a proof of holding this badge.
    pub fn create_proof(&self) -> (proof: BadgeProof)
        ensures
            proof == self.proof_of(),
    {
        BadgeProof { resource_address: self.resource_address, local_id: self.local_id }
    }
}

/// A store in which somebody keeps access key badges.
#[derive(Debug, PartialEq, Eq)]
pub struct AccessKeyVault {
    pub badges: Vec<AccessKeyBadge>,
}

/// One validator owner badge: its local id and its data.
#[derive(Debug, PartialEq, Eq)]
pub struct ValidatorOwnerBadge {
    pub local_id: NonFungibleLocalId,
    pub data: ValidatorOwnerBadgeData,
}

/// A bucket of non-fungible units of one resource, as it is offered to the
/// proxy for safe keeping and handed back by it.
#[derive(Debug, PartialEq, Eq)]
pub struct BadgeBucket {
    pub resource_address: ResourceAddress,
    pub badges: Vec<ValidatorOwnerBadge>,
}

/// What a bucket holds, as mathematics.
pub struct BucketContents {
    pub resource_address: ResourceAddress,
    pub badges: Seq<ValidatorOwnerBadge>,
}

impl View for BadgeBucket {
    type V = BucketContents;

    open spec fn view(&self) -> BucketContents {
        BucketContents { resource_address: self.resource_address, badges: self.badges@ }
    }
}

/// A proof of the validator owner badge that the proxy holds. Whoever has it
/// can do in that transaction whatever the badge allows.
#[derive(Debug, PartialEq, Eq)]
pub struct ValidatorOwnerBadgeProof {
    pub resource_address: ResourceAddress,
    pub local_id: NonFungibleLocalId,
}

} // verus!
