//! The book of access key badges that one proxy has issued.

use vstd::prelude::*;
use scrypto::prelude::ResourceAddress;
use crate::badges::AccessKeyBadgeData;
use crate::permissions::AccessKeyPermissions;

verus! {

/// What a registry holds, as mathematics.
pub struct RegistryState {
    /// The resource that the badges are units of.
    pub resource_address: ResourceAddress,
    /// How many badges were ever issued. The next one gets this number as
    /// its local id, so that no id is ever given twice.
    pub minted: nat,
    /// The data of each badge that exists, by local id. A burnt badge leaves
    /// the map for good.
    pub live: Map<nat, AccessKeyBadgeData>,
}

impl RegistryState {
    /// Every badge that exists was issued.
    pub open spec fn wf(self) -> bool {
        forall|id: nat| self.live.contains_key(id) ==> id < self.minted
    }

    /// The registry of a resource of which nothing was issued yet.
    pub open spec fn empty(resource_address: ResourceAddress) -> RegistryState {
        RegistryState { resource_address, minted: 0, live: Map::empty() }
    }

    /// The data of the badge with the given local id, if it exists.
    pub open spec fn get(self, id: nat) -> Option<AccessKeyBadgeData> {
        if self.live.contains_key(id) {
            Some(self.live[id])
        } else {
            None
        }
    }

    /// The registry after a badge with the given data was issued.
    pub open spec fn mint(self, data: AccessKeyBadgeData) -> RegistryState {
        RegistryState { minted: self.minted + 1, live: self.live.insert(self.minted, data), ..self }
    }

    /// The registry after the permissions of an existing badge were replaced.
    pub open spec fn set_permissions(self, id: nat, permissions: AccessKeyPermissions) -> RegistryState
        recommends
            self.live.contains_key(id),
    {
        RegistryState {
            live: self.live.insert(
                id,
                AccessKeyBadgeData { permissions, ..self.live[id] },
            ),
            ..self
        }
    }

    /// The registry after a badge was burnt.
    pub open spec fn burn(self, id: nat) -> RegistryState {
        RegistryState { live: self.live.remove(id), ..self }
    }
}

/// The book of access key badges of one resource: which exist, and what each
/// of them carries. Local ids count up from zero in the order of issue.
pub struct AccessKeyRegistry {
    resource_address: ResourceAddress,
    /// The data of the badge with local id `i` at index `i`, or nothing once
    /// the badge is burnt.
    entries: Vec<Option<AccessKeyBadgeData>>,
}

impl View for AccessKeyRegistry {
    type V = RegistryState;

    closed spec fn view(&self) -> RegistryState {
        RegistryState {
            resource_address: self.resource_address,
            minted: self.entries@.len(),
            live: Map::new(
                |id: nat| id < self.entries@.len() && self.entries@[id as int] is Some,
                |id: nat| self.entries@[id as int]->Some_0,
            ),
        }
    }
}

impl AccessKeyRegistry {
    /// A registry of the given resource with nothing issued.
    pub fn new(resource_address: ResourceAddress) -> (registry: AccessKeyRegistry)
        ensures
            registry@ == RegistryState::empty(resource_address),
            registry@.wf(),
    {
        let registry = AccessKeyRegistry { resource_address, entries: Vec::new() };
        assert(registry@.live =~= Map::empty());
        registry
    }

    /// The resource that the badges are units of.
    pub fn address(&self) -> (address: ResourceAddress)
        ensures
            address == self@.resource_address,
    {
        self.resource_address
    }

    /// The data of the badge with the given local id, if it exists.
    pub fn get(&self, local_id: u64) -> (data: Option<AccessKeyBadgeData>)
        ensures
            data == self@.get(local_id as nat),
    {
        if local_id < self.entries.len() as u64 {
            self.entries[local_id as usize]
        } else {
            None
        }
    }

    /// Issues a badge with the given data and returns its local id.
    pub fn mint(&mut self, data: AccessKeyBadgeData) -> (local_id: u64)
        ensures
            local_id == old(self)@.minted,
            final(self)@ == old(self)@.mint(data),
    {
        let local_id = self.entries.len() as u64;
        self.entries.push(Some(data));
        assert(self@.live =~= old(self)@.live.insert(old(self)@.minted, data));
        local_id
    }

    /// Replaces the permissions of the badge with the given local id. Returns
    /// whether there is such a badge; if there is none, nothing changes.
    pub fn update_permissions(&mut self, local_id: u64, permissions: AccessKeyPermissions) -> (found:
        bool)
        ensures
            found == old(self)@.live.contains_key(local_id as nat),
            final(self)@ == if found {
                old(self)@.set_permissions(local_id as nat, permissions)
            } else {
                old(self)@
            },
    {
        if local_id >= self.entries.len() as u64 {
            return false;
        }
        let index = local_id as usize;
        match self.entries[index] {
            None => false,
            Some(data) => {
                let updated = AccessKeyBadgeData {
                    node_warden_component_address: data.node_warden_component_address,
                    permissions,
                };
                self.entries.set(index, Some(updated));
                assert(self@.live =~= old(self)@.live.insert(local_id as nat, updated));
                true
            },
        }
    }

    /// Burns the badge with the given local id. Returns whether there was
    /// such a badge; if there was none, nothing changes.
    pub fn burn(&mut self, local_id: u64) -> (found: bool)
        ensures
            found == old(self)@.live.contains_key(local_id as nat),
            final(self)@ == if found {
                old(self)@.burn(local_id as nat)
            } else {
                old(self)@
            },
    {
        if local_id >= self.entries.len() as u64 {
            return false;
        }
        let index = local_id as usize;
        match self.entries[index] {
            None => false,
            Some(_) => {
                self.entries.set(index, None);
                assert(self@.live =~= old(self)@.live.remove(local_id as nat));
                true
            },
        }
    }
}

} // verus!
