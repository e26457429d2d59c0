//! The closed set of delegable actions and the per-badge permission record.

use vstd::prelude::*;
use crate::error::Error;

verus! {

/// One action that an access key badge can be allowed to perform. The first
/// ten are the validator's own owner-only methods; the last one hands out a
/// proof of the validator owner badge itself and so implies all the others.
#[derive(Clone, Copy, Debug, PartialEq, Eq, Hash, Structural)]
pub enum PermissionType {
    StakeAsOwner,
    Register,
    Unregister,
    UpdateKey,
    UpdateFee,
    LockOwnerStakeUnits,
    StartUnlockOwnerStakeUnits,
    FinishUnlockOwnerStakeUnits,
    UpdateAcceptDelegatedStake,
    SignalProtocolUpdateReadiness,
    CreateValidatorOwnerBadgeProof,
}

impl PermissionType {
    /// The snake-case name of the action.
    pub open spec fn name_spec(self) -> Seq<char> {
        match self {
            PermissionType::StakeAsOwner => "stake_as_owner"@,
            PermissionType::Register => "register"@,
            PermissionType::Unregister => "unregister"@,
            PermissionType::UpdateKey => "update_key"@,
            PermissionType::UpdateFee => "update_fee"@,
            PermissionType::LockOwnerStakeUnits => "lock_owner_stake_units"@,
            PermissionType::StartUnlockOwnerStakeUnits => "start_unlock_owner_stake_units"@,
            PermissionType::FinishUnlockOwnerStakeUnits => "finish_unlock_owner_stake_units"@,
            PermissionType::UpdateAcceptDelegatedStake => "update_accept_delegated_stake"@,
            PermissionType::SignalProtocolUpdateReadiness => "signal_protocol_update_readiness"@,
            PermissionType::CreateValidatorOwnerBadgeProof => "create_validator_owner_badge_proof"@,
        }
    }

    /// The action that a text names: the one whose snake-case name it is,
    /// letter for letter, if there is one.
    pub open spec fn named_by(name: Seq<char>) -> Option<PermissionType> {
        if exists|p: PermissionType| #[trigger] p.name_spec() == name {
            Some(choose|p: PermissionType| #[trigger] p.name_spec() == name)
        } else {
            None
        }
    }

    /// The snake-case name of the action.
    pub fn name(&self) -> (name: &'static str)
        ensures
            name@ == self.name_spec(),
    {
        match self {
            PermissionType::StakeAsOwner => "stake_as_owner",
            PermissionType::Register => "register",
            PermissionType::Unregister => "unregister",
            PermissionType::UpdateKey => "update_key",
            PermissionType::UpdateFee => "update_fee",
            PermissionType::LockOwnerStakeUnits => "lock_owner_stake_units",
            PermissionType::StartUnlockOwnerStakeUnits => "start_unlock_owner_stake_units",
            PermissionType::FinishUnlockOwnerStakeUnits => "finish_unlock_owner_stake_units",
            PermissionType::UpdateAcceptDelegatedStake => "update_accept_delegated_stake",
            PermissionType::SignalProtocolUpdateReadiness => "signal_protocol_update_readiness",
            PermissionType::CreateValidatorOwnerBadgeProof => "create_validator_owner_badge_proof",
        }
    }

    /// The snake-case name of the action, as an owned string.
    pub fn to_string(&self) -> (name: String)
        ensures
            name@ == self.name_spec(),
    {
        self.name().to_owned()
    }

    /// Every action, in declaration order.
    pub fn all() -> (all: [PermissionType; 11])
        ensures
            forall|p: PermissionType| #[trigger] all@.contains(p),
            all@.no_duplicates(),
    {
        let all = [
            PermissionType::StakeAsOwner,
            PermissionType::Register,
            PermissionType::Unregister,
            PermissionType::UpdateKey,
            PermissionType::UpdateFee,
            PermissionType::LockOwnerStakeUnits,
            PermissionType::StartUnlockOwnerStakeUnits,
            PermissionType::FinishUnlockOwnerStakeUnits,
            PermissionType::UpdateAcceptDelegatedStake,
            PermissionType::SignalProtocolUpdateReadiness,
            PermissionType::CreateValidatorOwnerBadgeProof,
        ];
        proof {
            assert forall|p: PermissionType| #[trigger] all@.contains(p) by {
                let i: int = match p {
                    PermissionType::StakeAsOwner => 0,
                    PermissionType::Register => 1,
                    PermissionType::Unregister => 2,
                    PermissionType::UpdateKey => 3,
                    PermissionType::UpdateFee => 4,
                    PermissionType::LockOwnerStakeUnits => 5,
                    PermissionType::StartUnlockOwnerStakeUnits => 6,
                    PermissionType::FinishUnlockOwnerStakeUnits => 7,
                    PermissionType::UpdateAcceptDelegatedStake => 8,
                    PermissionType::SignalProtocolUpdateReadiness => 9,
                    PermissionType::CreateValidatorOwnerBadgeProof => 10,
                };
                assert(all@[i] == p);
            }
        }
        all
    }

    /// Reads an action from its snake-case name. Any other text is refused
    /// with `InvalidAction`.
    pub fn from_str(name: &str) -> (parsed: Result<PermissionType, Error>)
        ensures
            parsed == match PermissionType::named_by(name@) {
                Some(p) => Ok::<PermissionType, Error>(p),
                None => Err::<PermissionType, Error>(Error::InvalidAction),
            },
    {
        let all = PermissionType::all();
        let wanted = name.to_owned();
        let mut i: usize = 0;
        while i < 11
            invariant
                i <= 11,
                wanted@ == name@,
                forall|p: PermissionType| #[trigger] all@.contains(p),
                forall|j: int| 0 <= j < i ==> (#[trigger] all@[j]).name_spec() != name@,
            decreases 11 - i,
        {
            let candidate = all[i];
            if candidate.to_string() == wanted {
                proof {
                    lemma_names_differ();
                    assert(candidate.name_spec() == name@);
                }
                return Ok(candidate);
            }
            i += 1;
        }
        proof {
            assert forall|p: PermissionType| #[trigger] p.name_spec() != name@ by {
                assert(all@.contains(p));
                let j = choose|j: int| 0 <= j < all@.len() && all@[j] == p;
                assert(all@[j].name_spec() != name@);
            }
        }
        Err(Error::InvalidAction)
    }
}

/// What one access key badge may do: one flag for each action. A record of
/// plain flags keeps the badge easy to read wherever its data is shown.
#[derive(Clone, Copy, Debug, PartialEq, Eq, Structural)]
pub struct AccessKeyPermissions {
    pub stake_as_owner: bool,
    pub register: bool,
    pub unregister: bool,
    pub update_key: bool,
    pub update_fee: bool,
    pub lock_owner_stake_units: bool,
    pub start_unlock_owner_stake_units: bool,
    pub finish_unlock_owner_stake_units: bool,
    pub update_accept_delegated_stake: bool,
    pub signal_protocol_update_readiness: bool,
    /// Allows taking a proof of the validator owner badge itself, and with
    /// it everything that the badge allows.
    pub create_validator_owner_badge_proof: bool,
}

impl View for AccessKeyPermissions {
    type V = Set<PermissionType>;

    /// The set of allowed actions.
    open spec fn view(&self) -> Set<PermissionType> {
        Set::new(|p: PermissionType| self.allows(p))
    }
}

impl Default for AccessKeyPermissions {
    /// The record that allows nothing.
    fn default() -> (none: Self)
        ensures
            forall|p: PermissionType| !none.allows(p),
            none@ == Set::<PermissionType>::empty(),
    {
        let none = Self {
            stake_as_owner: false,
            register: false,
            unregister: false,
            update_key: false,
            update_fee: false,
            lock_owner_stake_units: false,
            start_unlock_owner_stake_units: false,
            finish_unlock_owner_stake_units: false,
            update_accept_delegated_stake: false,
            signal_protocol_update_readiness: false,
            create_validator_owner_badge_proof: false,
        };
        assert(none@ =~= Set::<PermissionType>::empty());
        none
    }
}

impl AccessKeyPermissions {
    /// Whether the record allows the action: the flag that belongs to it.
    pub open spec fn allows(self, permission: PermissionType) -> bool {
        match permission {
            PermissionType::StakeAsOwner => self.stake_as_owner,
            PermissionType::Register => self.register,
            PermissionType::Unregister => self.unregister,
            PermissionType::UpdateKey => self.update_key,
            PermissionType::UpdateFee => self.update_fee,
            PermissionType::LockOwnerStakeUnits => self.lock_owner_stake_units,
            PermissionType::StartUnlockOwnerStakeUnits => self.start_unlock_owner_stake_units,
            PermissionType::FinishUnlockOwnerStakeUnits => self.finish_unlock_owner_stake_units,
            PermissionType::UpdateAcceptDelegatedStake => self.update_accept_delegated_stake,
            PermissionType::SignalProtocolUpdateReadiness => self.signal_protocol_update_readiness,
            PermissionType::CreateValidatorOwnerBadgeProof =>
                self.create_validator_owner_badge_proof,
        }
    }

    /// The record with the flag of one action overwritten and every other
    /// flag as it was.
    pub open spec fn with(self, permission: PermissionType, allow: bool) -> Self {
        AccessKeyPermissions {
            stake_as_owner: self.flag_after(PermissionType::StakeAsOwner, permission, allow),
            register: self.flag_after(PermissionType::Register, permission, allow),
            unregister: self.flag_after(PermissionType::Unregister, permission, allow),
            update_key: self.flag_after(PermissionType::UpdateKey, permission, allow),
            update_fee: self.flag_after(PermissionType::UpdateFee, permission, allow),
            lock_owner_stake_units: self.flag_after(
                PermissionType::LockOwnerStakeUnits,
                permission,
                allow,
            ),
            start_unlock_owner_stake_units: self.flag_after(
                PermissionType::StartUnlockOwnerStakeUnits,
                permission,
                allow,
            ),
            finish_unlock_owner_stake_units: self.flag_after(
                PermissionType::FinishUnlockOwnerStakeUnits,
                permission,
                allow,
            ),
            update_accept_delegated_stake: self.flag_after(
                PermissionType::UpdateAcceptDelegatedStake,
                permission,
                allow,
            ),
            signal_protocol_update_readiness: self.flag_after(
                PermissionType::SignalProtocolUpdateReadiness,
                permission,
                allow,
            ),
            create_validator_owner_badge_proof: self.flag_after(
                PermissionType::CreateValidatorOwnerBadgeProof,
                permission,
                allow,
            ),
        }
    }

    /// The flag of `of` once the flag of `written` has been set to `allow`.
    pub open spec fn flag_after(
        self,
        of: PermissionType,
        written: PermissionType,
        allow: bool,
    ) -> bool {
        if of == written {
            allow
        } else {
            self.allows(of)
        }
    }

    /// Whether the record allows the action.
    pub fn is_allowed(&self, permission: &PermissionType) -> (allowed: bool)
        ensures
            allowed == self.allows(*permission),
            allowed == self@.contains(*permission),
    {
        match permission {
            PermissionType::StakeAsOwner => self.stake_as_owner,
            PermissionType::Register => self.register,
            PermissionType::Unregister => self.unregister,
            PermissionType::UpdateKey => self.update_key,
            PermissionType::UpdateFee => self.update_fee,
            PermissionType::LockOwnerStakeUnits => self.lock_owner_stake_units,
            PermissionType::StartUnlockOwnerStakeUnits => self.start_unlock_owner_stake_units,
            PermissionType::FinishUnlockOwnerStakeUnits => self.finish_unlock_owner_stake_units,
            PermissionType::UpdateAcceptDelegatedStake => self.update_accept_delegated_stake,
            PermissionType::SignalProtocolUpdateReadiness => self.signal_protocol_update_readiness,
            PermissionType::CreateValidatorOwnerBadgeProof => {
                self.create_validator_owner_badge_proof
            },
        }
    }

    /// Overwrites the flag of one action and leaves every other flag alone.
    pub fn update_permission(&mut self, permission: PermissionType, allow: bool)
        ensures
            *final(self) == old(self).with(permission, allow),
            final(self).allows(permission) == allow,
            forall|other: PermissionType|
                other != permission ==> final(self).allows(other) == old(self).allows(other),
            final(self)@ == if allow {
                old(self)@.insert(permission)
            } else {
                old(self)@.remove(permission)
            },
    {
        match permission {
            PermissionType::StakeAsOwner => self.stake_as_owner = allow,
            PermissionType::Register => self.register = allow,
            PermissionType::Unregister => self.unregister = allow,
            PermissionType::UpdateKey => self.update_key = allow,
            PermissionType::UpdateFee => self.update_fee = allow,
            PermissionType::LockOwnerStakeUnits => self.lock_owner_stake_units = allow,
            PermissionType::StartUnlockOwnerStakeUnits => {
                self.start_unlock_owner_stake_units = allow
            },
            PermissionType::FinishUnlockOwnerStakeUnits => {
                self.finish_unlock_owner_stake_units = allow
            },
            PermissionType::UpdateAcceptDelegatedStake => {
                self.update_accept_delegated_stake = allow
            },
            PermissionType::SignalProtocolUpdateReadiness => {
                self.signal_protocol_update_readiness = allow
            },
            PermissionType::CreateValidatorOwnerBadgeProof => {
                self.create_validator_owner_badge_proof = allow
            },
        }
        proof {
            old(self).lemma_with(permission, allow);
        }
    }

    /// Writing one flag changes that flag and no other; as sets of allowed
    /// actions, it adds or removes the one action.
    pub proof fn lemma_with(self, permission: PermissionType, allow: bool)
        ensures
            self.with(permission, allow).allows(permission) == allow,
            forall|other: PermissionType|
                other != permission ==> self.with(permission, allow).allows(other) == self.allows(
                    other,
                ),
            self.with(permission, allow)@ == if allow {
                self@.insert(permission)
            } else {
                self@.remove(permission)
            },
    {
        let after = self.with(permission, allow);
        assert forall|other: PermissionType| other != permission implies after.allows(other)
            == self.allows(other) by {}
        if allow {
            assert(after@ =~= self@.insert(permission));
        } else {
            assert(after@ =~= self@.remove(permission));
        }
    }
}

/// No two actions share a name.
pub proof fn lemma_names_differ()
    ensures
        forall|p: PermissionType, q: PermissionType|
            #[trigger] p.name_spec() == #[trigger] q.name_spec() ==> p == q,
{
    reveal_strlit("stake_as_owner");
    reveal_strlit("register");
    reveal_strlit("unregister");
    reveal_strlit("update_key");
    reveal_strlit("update_fee");
    reveal_strlit("lock_owner_stake_units");
    reveal_strlit("start_unlock_owner_stake_units");
    reveal_strlit("finish_unlock_owner_stake_units");
    reveal_strlit("update_accept_delegated_stake");
    reveal_strlit("signal_protocol_update_readiness");
    reveal_strlit("create_validator_owner_badge_proof");
    assert forall|p: PermissionType, q: PermissionType|
        #[trigger] p.name_spec() == #[trigger] q.name_spec() implies p == q by {
        if p != q {
            let a = p.name_spec();
            let b = q.name_spec();
            if a.len() == b.len() {
                // "update_key" and "update_fee" alone have one length.
                assert(a[7] != b[7]);
            }
        }
    }
}

} // verus!
