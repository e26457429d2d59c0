//! The ways in which the proxy refuses an operation.

use vstd::prelude::*;
use vstd::string::StringExecFns;
use crate::permissions::PermissionType;

verus! {

/// Why an operation was refused. A refused operation changes nothing.
#[derive(Clone, Copy, Debug, PartialEq, Eq, Structural)]
pub enum Error {
    /// The presented proof is neither of the owner badge nor of an access key
    /// badge of this proxy, or an owner-only operation was called without
    /// the owner badge.
    UnauthorizedProof,
    /// The presented access key badge does not allow the action.
    PermissionDenied { action: PermissionType },
    /// The text names no action.
    InvalidAction,
    /// No live access key badge has the given local id.
    UnknownToken,
    /// A validator owner badge is already held.
    AlreadyBound,
    /// No validator owner badge is held, so none can be withdrawn.
    NothingToWithdraw,
    /// The offered units are not of the expected resource.
    WrongCredentialType,
    /// The offered bucket or the named store does not hold exactly one unit.
    WrongQuantity,
    /// No validator owner badge is held, so nothing can be done in its name.
    NotBound,
}

impl Error {
    /// The text of the message, as a sequence of characters.
    pub open spec fn message_spec(self) -> Seq<char> {
        match self {
            Error::UnauthorizedProof => "The proof is neither of the owner badge nor of an access key badge"@,
            Error::PermissionDenied { action } =>
                "Access key badge does not have permission for: "@ + action.name_spec(),
            Error::InvalidAction => "Invalid permission type"@,
            Error::UnknownToken => "There is no access key badge with this local id"@,
            Error::AlreadyBound => "There should be no validator owner badge already deposited."@,
            Error::NothingToWithdraw => "There is no validator owner badge to withdraw"@,
            Error::WrongCredentialType => "The deposited bucket must be a validator owner badge"@,
            Error::WrongQuantity => "The deposited bucket must contain exactly one validator owner badge."@,
            Error::NotBound =>
                "The component address of the validator component should be known at this point"@,
        }
    }

    /// A description of the refusal, fit to be shown to the caller.
    pub fn message(&self) -> (text: String)
        ensures
            text@ == self.message_spec(),
    {
        match self {
            Error::UnauthorizedProof => String::from_str(
                "The proof is neither of the owner badge nor of an access key badge",
            ),
            Error::PermissionDenied { action } => String::from_str(
                "Access key badge does not have permission for: ",
            ).concat(action.name()),
            Error::InvalidAction => String::from_str("Invalid permission type"),
            Error::UnknownToken => String::from_str(
                "There is no access key badge with this local id",
            ),
            Error::AlreadyBound => String::from_str(
                "There should be no validator owner badge already deposited.",
            ),
            Error::NothingToWithdraw => String::from_str(
                "There is no validator owner badge to withdraw",
            ),
            Error::WrongCredentialType => String::from_str(
                "The deposited bucket must be a validator owner badge",
            ),
            Error::WrongQuantity => String::from_str(
                "The deposited bucket must contain exactly one validator owner badge.",
            ),
            Error::NotBound => String::from_str(
                "The component address of the validator component should be known at this point",
            ),
        }
    }
}

} // verus!
