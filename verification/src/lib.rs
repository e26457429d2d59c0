//! A proxy that stands between a validator and the people who run it.
//!
//! The proxy keeps the validator owner badge. Its owner hands out access key
//! badges, each of which allows some of the validator's owner-only methods,
//! and can change or take back what a badge allows at any time. A call on
//! the validator goes through the proxy, which checks the caller's badge and
//! then makes the call in the name of the validator owner badge.
//!
//! The ledger runtime keeps the badges, verifies proofs and makes the calls.
//! This library holds the rules: [`permissions`] and [`gate`] decide who may
//! do what, [`registry`] and [`state`] say what the proxy remembers,
//! [`warden`] is the proxy, and [`laws`] states what holds of it.

pub mod badges;
pub mod error;
pub mod gate;
pub mod host;
pub mod laws;
pub mod permissions;
pub mod registry;
pub mod roles;
pub mod state;
pub mod validator;
pub mod warden;

pub use crate::badges::{
    AccessKeyBadge, AccessKeyBadgeData, AccessKeyVault, BadgeBucket, BadgeProof,
    NodeWardenOwnerBadgeData, OwnerBadge, ValidatorOwnerBadge, ValidatorOwnerBadgeData,
    ValidatorOwnerBadgeProof,
};
pub use crate::error::Error;
pub use crate::permissions::{AccessKeyPermissions, PermissionType};
pub use crate::validator::{AuthorizedCall, ValidatorCall};
pub use crate::warden::{AddressReservation, NodeWarden};
