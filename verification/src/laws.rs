//! What holds of the proxy whatever its state and whoever calls it.

use vstd::prelude::*;
use crate::badges::{AccessKeyBadge, BadgeProof, BucketContents, ValidatorOwnerBadgeProof};
use crate::error::Error;
use crate::gate::ProofOrigin;
use crate::permissions::{lemma_names_differ, AccessKeyPermissions, PermissionType};
use crate::registry::RegistryState;
use crate::state::WardenState;
use crate::validator::{AuthorizedCall, ValidatorCall};

verus! {

/// A flag reads as it was last written: writing it shows at once, a later
/// write to the same flag replaces an earlier one, and a write to any other
/// flag leaves it as it is.
pub proof fn law_flag_reads_as_last_written(
    permissions: AccessKeyPermissions,
    action: PermissionType,
    first: bool,
    last: bool,
    other: PermissionType,
    other_allow: bool,
)
    requires
        other != action,
    ensures
        permissions.with(action, last).allows(action) == last,
        permissions.with(action, first).with(action, last).allows(action) == last,
        permissions.with(action, last).with(other, other_allow).allows(action) == last,
        permissions.with(other, other_allow).allows(action) == permissions.allows(action),
{
}

/// An action is read back from the name that it is written out with, and
/// from no other text.
pub proof fn law_name_round_trip(action: PermissionType, name: Seq<char>)
    ensures
        PermissionType::named_by(action.name_spec()) == Some(action),
        PermissionType::named_by(name) == Some(action) <==> name == action.name_spec(),
{
    lemma_names_differ();
    assert(action.name_spec() == action.name_spec());
    if PermissionType::named_by(name) == Some(action) {
        let found = choose|p: PermissionType| #[trigger] p.name_spec() == name;
        assert(found.name_spec() == name);
    }
    if name == action.name_spec() {
        let found = choose|p: PermissionType| #[trigger] p.name_spec() == name;
        assert(found.name_spec() == action.name_spec());
    }
}

/// The owner badge passes for every action, whatever access key badges
/// there are and whatever they allow.
pub proof fn law_owner_passes(
    state: WardenState,
    proof: BadgeProof,
    action: PermissionType,
    access_keys: RegistryState,
)
    requires
        state.is_owner(proof),
    ensures
        state.check_proof(proof, action) == Ok::<(), Error>(()),
        (WardenState { access_keys, ..state }).check_proof(proof, action) == Ok::<(), Error>(()),
{
}

/// With the owner badge, every call on the validator goes through while a
/// validator owner badge is held, and so does the request for a proof of
/// that badge, whatever access key badges there are and whatever they allow.
/// The call goes to the validator that the held badge names, in the name of
/// that badge, with its arguments as they were given.
pub proof fn law_owner_acts(
    state: WardenState,
    proof: BadgeProof,
    call: ValidatorCall,
    access_keys: RegistryState,
)
    requires
        state.is_owner(proof),
        state.is_bound(),
    ensures
        (WardenState { access_keys, ..state }).dispatch(proof, call) == Ok::<
            AuthorizedCall,
            Error,
        >(
            AuthorizedCall {
                validator: state.custody->Some_0.data.validator,
                badge: state.custody->Some_0.local_id,
                call,
            },
        ),
        (WardenState { access_keys, ..state }).badge_proof(proof) == Ok::<
            ValidatorOwnerBadgeProof,
            Error,
        >(
            ValidatorOwnerBadgeProof {
                resource_address: state.validator_owner_badge_resource,
                local_id: state.custody->Some_0.local_id,
            },
        ),
{
}

/// An access key badge passes for exactly the actions that its record
/// allows, and is refused for every other action with `PermissionDenied`
/// for that action.
pub proof fn law_badge_passes_as_far_as_allowed(
    state: WardenState,
    proof: BadgeProof,
    action: PermissionType,
)
    requires
        state.wf(),
        state.is_access_key(proof),
    ensures
        state.check_proof(proof, action) == if state.permissions_of(proof)->Some_0.allows(action) {
            Ok::<(), Error>(())
        } else {
            Err::<(), Error>(Error::PermissionDenied { action })
        },
{
}

/// A badge that allows one action alone passes for that action and is
/// refused for every other one with `PermissionDenied`.
pub proof fn law_single_permission(
    state: WardenState,
    proof: BadgeProof,
    allowed: PermissionType,
    action: PermissionType,
)
    requires
        state.wf(),
        state.is_access_key(proof),
        state.permissions_of(proof)->Some_0@ == set![allowed],
    ensures
        state.check_proof(proof, allowed) == Ok::<(), Error>(()),
        action != allowed ==> state.check_proof(proof, action) == Err::<(), Error>(
            Error::PermissionDenied { action },
        ),
{
    let permissions = state.permissions_of(proof)->Some_0;
    assert(permissions@.contains(allowed));
    assert(permissions@.contains(action) == permissions.allows(action));
}

/// Setting one flag of one badge shows in the very next check of that badge
/// for that action. Every other check comes out as before: of the same badge
/// for another action, of another badge, of the owner badge, of a foreign
/// proof.
pub proof fn law_toggle_is_immediate_and_local(
    state: WardenState,
    id: nat,
    action: PermissionType,
    allow: bool,
    proof: BadgeProof,
    asked: PermissionType,
)
    requires
        state.wf(),
        state.access_keys.live.contains_key(id),
    ensures
        state.set_permission(id, action, allow).wf(),
        state.set_permission(id, action, allow).is_access_key(proof) == state.is_access_key(
            proof,
        ),
        state.is_access_key(proof) && proof.local_id as nat == id ==> state.set_permission(
            id,
            action,
            allow,
        ).check_proof(proof, action) == if allow {
            Ok::<(), Error>(())
        } else {
            Err::<(), Error>(Error::PermissionDenied { action })
        },
        !(state.is_access_key(proof) && proof.local_id as nat == id && asked == action)
            ==> state.set_permission(id, action, allow).check_proof(proof, asked)
            == state.check_proof(proof, asked),
{
    let after = state.set_permission(id, action, allow);
    state.access_keys.live[id].permissions.lemma_with(action, allow);
    assert(after.origin(proof) == state.origin(proof));
    assert(after.access_keys.live.dom() =~= state.access_keys.live.dom());
}

/// A badge that was just issued passes as far as the permissions it was
/// issued with allow, and issuing it changes no check of any badge that
/// existed before.
pub proof fn law_issue_is_local(
    state: WardenState,
    permissions: AccessKeyPermissions,
    proof: BadgeProof,
    asked: PermissionType,
)
    requires
        state.wf(),
    ensures
        state.issue(permissions).wf(),
        !state.access_keys.live.contains_key(state.access_keys.minted),
        state.issue(permissions).access_keys.get(state.access_keys.minted) == Some(
            state.badge_data(permissions),
        ),
        proof.local_id as nat != state.access_keys.minted ==> state.issue(permissions).check_proof(
            proof,
            asked,
        ) == state.check_proof(proof, asked),
{
}

/// Once a badge is burnt, no proof of it passes any more, and the checks of
/// all other badges come out as before.
pub proof fn law_burn_revokes(
    state: WardenState,
    id: nat,
    proof: BadgeProof,
    asked: PermissionType,
)
    requires
        state.wf(),
        state.access_keys.live.contains_key(id),
    ensures
        state.burn(id).wf(),
        state.is_access_key(proof) && proof.local_id as nat == id ==> state.burn(id).check_proof(
            proof,
            asked,
        ) == Err::<(), Error>(Error::UnknownToken),
        proof.local_id as nat != id ==> state.burn(id).check_proof(proof, asked)
            == state.check_proof(proof, asked),
{
}

/// What the owner deposits, the owner gets back: after a bucket with one
/// validator owner badge was taken in, a withdrawal passes, hands out a
/// bucket that holds what the deposited one held, and leaves the proxy as it
/// was before the deposit, holding nothing.
pub proof fn law_withdraw_returns_deposit(
    state: WardenState,
    owner: BadgeProof,
    offered: BucketContents,
)
    requires
        state.is_owner(owner),
        !state.is_bound(),
        offered.resource_address == state.validator_owner_badge_resource,
        offered.badges.len() == 1,
    ensures
        state.deposit_verdict(owner, offered) == Ok::<(), Error>(()),
        state.after_deposit(owner, offered).is_bound(),
        state.after_deposit(owner, offered).validator_address() == Some(
            offered.badges[0].data.validator,
        ),
        state.after_deposit(owner, offered).withdraw_verdict(owner) == Ok::<(), Error>(()),
        state.after_deposit(owner, offered).held() == offered,
        state.after_deposit(owner, offered).after_withdraw(owner) == state,
        !state.after_deposit(owner, offered).after_withdraw(owner).is_bound(),
{
    let bound = state.after_deposit(owner, offered);
    assert(bound.held().badges =~= offered.badges);
}

/// While no validator owner badge is held, no call reaches the validator:
/// whoever passes the check of the proof is refused with `NotBound`, the
/// owner included, for every call and for the proof of the badge itself.
/// Whoever does not pass the check is refused as the check says.
pub proof fn law_unbound_passes_nothing(state: WardenState, proof: BadgeProof, call: ValidatorCall)
    requires
        !state.is_bound(),
    ensures
        state.dispatch(proof, call) is Err,
        state.badge_proof(proof) is Err,
        state.check_proof(proof, call.required_permission()) is Ok ==> state.dispatch(proof, call)
            == Err::<AuthorizedCall, Error>(Error::NotBound),
        state.check_proof(proof, PermissionType::CreateValidatorOwnerBadgeProof) is Ok
            ==> state.badge_proof(proof) == Err::<ValidatorOwnerBadgeProof, Error>(
            Error::NotBound,
        ),
        state.check_proof(proof, call.required_permission()) matches Err(refusal)
            ==> state.dispatch(proof, call) == Err::<AuthorizedCall, Error>(refusal),
{
}

/// While a validator owner badge is held, the owner's offer of another one
/// is refused with `AlreadyBound`, whatever is offered, and changes nothing.
pub proof fn law_second_deposit_refused(
    state: WardenState,
    owner: BadgeProof,
    offered: BucketContents,
)
    requires
        state.is_owner(owner),
        state.is_bound(),
    ensures
        state.deposit_verdict(owner, offered) == Err::<(), Error>(Error::AlreadyBound),
        state.after_deposit(owner, offered) == state,
{
}

/// Safe keeping is the owner's alone: without the owner badge, a deposit and
/// a withdrawal are refused with `UnauthorizedProof` and change nothing,
/// whatever badge the proof is of and whatever that badge allows. The same
/// holds of issuing a badge, of setting a flag and of recalling a badge.
pub proof fn law_custody_is_the_owners(
    state: WardenState,
    proof: BadgeProof,
    offered: BucketContents,
)
    requires
        !state.is_owner(proof),
    ensures
        state.withdraw_verdict(proof) == Err::<(), Error>(Error::UnauthorizedProof),
        state.after_withdraw(proof) == state,
        state.deposit_verdict(proof, offered) == Err::<(), Error>(Error::UnauthorizedProof),
        state.after_deposit(proof, offered) == state,
        forall|permissions: AccessKeyPermissions| #[trigger]
            state.after_issue(proof, permissions) == state,
        forall|id: nat, name: Seq<char>, allow: bool|
            #![trigger state.after_update(proof, id, name, allow)]
            state.update_verdict(proof, id, name) == Err::<PermissionType, Error>(
                Error::UnauthorizedProof,
            ) && state.after_update(proof, id, name, allow) == state,
        forall|stored: Seq<AccessKeyBadge>| #[trigger]
            state.recall_verdict(proof, stored) == Err::<(), Error>(Error::UnauthorizedProof),
{
}

/// A proof is of the owner badge, of an access key badge or foreign, and
/// never two of these at once. A foreign proof is refused for every action.
pub proof fn law_foreign_proof_refused(state: WardenState, proof: BadgeProof, action: PermissionType)
    requires
        state.wf(),
    ensures
        state.is_owner(proof) <==> state.origin(proof) == ProofOrigin::OwnerBadge,
        state.is_owner(proof) ==> !state.is_access_key(proof),
        state.origin(proof) == ProofOrigin::Foreign ==> state.check_proof(proof, action) == Err::<
            (),
            Error,
        >(Error::UnauthorizedProof),
{
}

/// Every access key badge names the proxy that issued it, from the first
/// state of the proxy on and through every operation.
pub proof fn law_badges_name_their_issuer(
    state: WardenState,
    proof: BadgeProof,
    permissions: AccessKeyPermissions,
    id: nat,
    name: Seq<char>,
    allow: bool,
    offered: BucketContents,
)
    requires
        state.wf(),
    ensures
        state.after_issue(proof, permissions).wf(),
        state.after_update(proof, id, name, allow).wf(),
        state.after_burn(state.access_keys.resource_address, id).wf(),
        state.after_deposit(proof, offered).wf(),
        state.after_withdraw(proof).wf(),
{
    match state.update_verdict(proof, id, name) {
        Ok(action) => {
            law_toggle_is_immediate_and_local(state, id, action, allow, proof, action);
        },
        Err(_) => {},
    }
}

} // verus!
