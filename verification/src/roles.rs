//! Who may do what to the badges of a proxy.
//!
//! The ledger enforces these rules on the two badge resources. The proxy
//! decides on them once, when it is made.

use vstd::prelude::*;
use scrypto::prelude::{ComponentAddress, ResourceAddress};

verus! {

/// A rule that the ledger checks before it lets somebody act on a resource.
#[derive(Clone, Copy, Debug, PartialEq, Eq)]
pub enum Rule {
    /// Anyone may.
    AllowAll,
    /// No one may.
    DenyAll,
    /// Only code of the given component may.
    Component(ComponentAddress),
    /// Only who shows a proof of a unit of the given resource may.
    Badge(ResourceAddress),
    /// Code of the given component may, and so may who shows a proof of a
    /// unit of the given resource.
    ComponentOrBadge(ComponentAddress, ResourceAddress),
}

/// Who is acting: the component whose code makes the call, if it is made by
/// a component, and the resources of which proofs are shown.
pub struct Caller {
    pub component: Option<ComponentAddress>,
    pub badges: Set<ResourceAddress>,
}

impl Rule {
    /// Whether the rule lets the caller act.
    pub open spec fn admits(self, caller: Caller) -> bool {
        match self {
            Rule::AllowAll => true,
            Rule::DenyAll => false,
            Rule::Component(component) => caller.component == Some(component),
            Rule::Badge(resource) => caller.badges.contains(resource),
            Rule::ComponentOrBadge(component, resource) => caller.component == Some(component)
                || caller.badges.contains(resource),
        }
    }
}

/// The rules of one badge resource. None of them can be changed later: the
/// role that could change a rule is closed to everyone, for every rule.
#[derive(Clone, Copy, Debug, PartialEq, Eq)]
pub struct ResourceRoles {
    /// Who owns the resource and may set its metadata.
    pub owner: Rule,
    pub minter: Rule,
    pub burner: Rule,
    pub withdrawer: Rule,
    pub depositor: Rule,
    pub recaller: Rule,
    pub freezer: Rule,
    pub non_fungible_data_updater: Rule,
}

impl ResourceRoles {
    /// The rule by which every rule of the resource could be changed.
    pub open spec fn updater(self) -> Rule {
        Rule::DenyAll
    }
}

/// The roles of the component itself.
#[derive(Clone, Copy, Debug, PartialEq, Eq)]
pub struct ComponentRoles {
    /// Who owns the component and may set its metadata.
    pub owner: Rule,
    /// Who may call what is the owner's alone.
    pub component_owner: Rule,
    /// Who holds a key.
    pub key_holder: Rule,
}

/// The rules of the owner badge of the proxy at `component`.
///
/// The badge moves freely from hand to hand. Only the proxy could make,
/// burn or change one, and no one can recall or freeze it.
pub open spec fn owner_badge_rules(component: ComponentAddress) -> ResourceRoles {
    ResourceRoles {
        owner: Rule::Component(component),
        minter: Rule::Component(component),
        burner: Rule::Component(component),
        withdrawer: Rule::AllowAll,
        depositor: Rule::AllowAll,
        recaller: Rule::DenyAll,
        freezer: Rule::DenyAll,
        non_fungible_data_updater: Rule::Component(component),
    }
}

/// The rules of the access key badges of the proxy at `component`, whose
/// owner badge is of the resource `owner_badge`.
///
/// Whoever holds a badge may burn it. A badge moves into or out of a store
/// only with the owner's consent, and the owner can recall it from any
/// store. Only the proxy changes what a badge allows.
pub open spec fn access_key_badge_rules(
    component: ComponentAddress,
    owner_badge: ResourceAddress,
) -> ResourceRoles {
    ResourceRoles {
        owner: Rule::Component(component),
        minter: Rule::ComponentOrBadge(component, owner_badge),
        burner: Rule::AllowAll,
        withdrawer: Rule::Badge(owner_badge),
        depositor: Rule::Badge(owner_badge),
        recaller: Rule::ComponentOrBadge(component, owner_badge),
        freezer: Rule::DenyAll,
        non_fungible_data_updater: Rule::Component(component),
    }
}

/// The roles of the proxy at `component`: the holder of the owner badge is
/// its owner, the holder of an access key badge a key holder.
pub open spec fn component_rules(
    component: ComponentAddress,
    owner_badge: ResourceAddress,
    access_key_badge: ResourceAddress,
) -> ComponentRoles {
    ComponentRoles {
        owner: Rule::Component(component),
        component_owner: Rule::Badge(owner_badge),
        key_holder: Rule::Badge(access_key_badge),
    }
}

/// The rules under which the owner badge resource is created.
pub fn owner_badge_roles(component: ComponentAddress) -> (roles: ResourceRoles)
    ensures
        roles == owner_badge_rules(component),
{
    ResourceRoles {
        owner: Rule::Component(component),
        minter: Rule::Component(component),
        burner: Rule::Component(component),
        withdrawer: Rule::AllowAll,
        depositor: Rule::AllowAll,
        recaller: Rule::DenyAll,
        freezer: Rule::DenyAll,
        non_fungible_data_updater: Rule::Component(component),
    }
}

/// The rules under which the access key badge resource is created.
pub fn access_key_badge_roles(component: ComponentAddress, owner_badge: ResourceAddress) -> (roles:
    ResourceRoles)
    ensures
        roles == access_key_badge_rules(component, owner_badge),
{
    ResourceRoles {
        owner: Rule::Component(component),
        minter: Rule::ComponentOrBadge(component, owner_badge),
        burner: Rule::AllowAll,
        withdrawer: Rule::Badge(owner_badge),
        depositor: Rule::Badge(owner_badge),
        recaller: Rule::ComponentOrBadge(component, owner_badge),
        freezer: Rule::DenyAll,
        non_fungible_data_updater: Rule::Component(component),
    }
}

/// The roles under which the proxy itself is made global.
pub fn component_roles(
    component: ComponentAddress,
    owner_badge: ResourceAddress,
    access_key_badge: ResourceAddress,
) -> (roles: ComponentRoles)
    ensures
        roles == component_rules(component, owner_badge, access_key_badge),
{
    ComponentRoles {
        owner: Rule::Component(component),
        component_owner: Rule::Badge(owner_badge),
        key_holder: Rule::Badge(access_key_badge),
    }
}

/// No holder can raise what a badge allows: the data of an access key badge
/// is changed by the code of the proxy alone, which does so for the owner
/// only. And no rule can be loosened later.
pub proof fn law_no_self_elevation(
    component: ComponentAddress,
    owner_badge: ResourceAddress,
    caller: Caller,
)
    ensures
        access_key_badge_rules(component, owner_badge).non_fungible_data_updater.admits(caller)
            <==> caller.component == Some(component),
        !access_key_badge_rules(component, owner_badge).updater().admits(caller),
        !owner_badge_rules(component).updater().admits(caller),
{
}

/// Whoever holds an access key badge may burn it, but only the owner, or
/// the proxy itself, can take one out of somebody else's store.
pub proof fn law_burn_is_open_recall_is_not(
    component: ComponentAddress,
    owner_badge: ResourceAddress,
    caller: Caller,
)
    ensures
        access_key_badge_rules(component, owner_badge).burner.admits(caller),
        access_key_badge_rules(component, owner_badge).recaller.admits(caller) <==> (
        caller.component == Some(component) || caller.badges.contains(owner_badge)),
{
}

/// There is one owner badge and there stays one: no one but the proxy could
/// make or burn one, and no one at all can recall or freeze it.
pub proof fn law_owner_badge_is_singular(component: ComponentAddress, caller: Caller)
    ensures
        owner_badge_rules(component).minter.admits(caller) <==> caller.component == Some(
            component,
        ),
        owner_badge_rules(component).burner.admits(caller) <==> caller.component == Some(
            component,
        ),
        !owner_badge_rules(component).recaller.admits(caller),
        !owner_badge_rules(component).freezer.admits(caller),
{
}

} // verus!
