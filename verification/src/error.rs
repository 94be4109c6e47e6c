//! The ways in which a marketplace operation fails.

use vstd::prelude::*;
use cosmwasm_std::StdError;
use cw721_base::ContractError as RegistryError;

verus! {

/// Why a request was rejected. A request that is rejected has changed
/// nothing.
#[derive(Debug, PartialEq)]
pub enum ContractError {
    /// The host refused an identity, or its store holds what does not decode.
    Std(StdError),
    /// The caller is not the asset's owner.
    Unauthorized {},
    /// A bid of nothing, or the acceptance of a bid that is absent or empty.
    InvalidBidAmount {},
    /// The registry holds the asset already.
    Claimed {},
    /// The registry met an approval that has run out.
    Expired {},
    /// There is no ask, no bid or no asset under the key that was asked for.
    NotFound {},
}

/// The kind of a failure, without what it carries.
#[derive(Clone, Copy, Debug, PartialEq, Eq, Structural)]
pub enum ErrorKind {
    Std,
    Unauthorized,
    InvalidBidAmount,
    Claimed,
    Expired,
    NotFound,
}

impl ErrorKind {
    /// The text under which a failure of the kind is reported. A failure of
    /// the host has a text of its own besides.
    pub open spec fn text(self) -> Seq<char> {
        match self {
            ErrorKind::Std => "Std"@,
            ErrorKind::Unauthorized => "Unauthorized"@,
            ErrorKind::InvalidBidAmount => "InvalidBidAmount"@,
            ErrorKind::Claimed => "Claimed"@,
            ErrorKind::Expired => "Expired"@,
            ErrorKind::NotFound => "NotFound"@,
        }
    }

    /// The text under which a failure of the kind is reported.
    pub fn message(&self) -> (text: &'static str)
        ensures
            text@ == self.text(),
    {
        match self {
            ErrorKind::Std => "Std",
            ErrorKind::Unauthorized => "Unauthorized",
            ErrorKind::InvalidBidAmount => "InvalidBidAmount",
            ErrorKind::Claimed => "Claimed",
            ErrorKind::Expired => "Expired",
            ErrorKind::NotFound => "NotFound",
        }
    }
}

impl ContractError {
    /// The kind of the failure.
    pub open spec fn failure(self) -> ErrorKind {
        match self {
            ContractError::Std(_) => ErrorKind::Std,
            ContractError::Unauthorized {} => ErrorKind::Unauthorized,
            ContractError::InvalidBidAmount {} => ErrorKind::InvalidBidAmount,
            ContractError::Claimed {} => ErrorKind::Claimed,
            ContractError::Expired {} => ErrorKind::Expired,
            ContractError::NotFound {} => ErrorKind::NotFound,
        }
    }

    /// The kind of the failure, for a caller that has to tell the kinds
    /// apart.
    pub fn kind(&self) -> (kind: ErrorKind)
        ensures
            kind == self.failure(),
    {
        match self {
            ContractError::Std(_) => ErrorKind::Std,
            ContractError::Unauthorized {} => ErrorKind::Unauthorized,
            ContractError::InvalidBidAmount {} => ErrorKind::InvalidBidAmount,
            ContractError::Claimed {} => ErrorKind::Claimed,
            ContractError::Expired {} => ErrorKind::Expired,
            ContractError::NotFound {} => ErrorKind::NotFound,
        }
    }
}

impl From<RegistryError> for ContractError {
    /// Each refusal of the registry is carried over as the failure of the
    /// same name.
    fn from(err: RegistryError) -> (converted: Self) {
        match err {
            RegistryError::Std(error) => ContractError::Std(error),
            RegistryError::Unauthorized {} => ContractError::Unauthorized {},
            RegistryError::Claimed {} => ContractError::Claimed {},
            RegistryError::Expired {} => ContractError::Expired {},
        }
    }
}

impl vstd::std_specs::convert::FromSpecImpl<RegistryError> for ContractError {
    open spec fn obeys_from_spec() -> bool {
        true
    }

    open spec fn from_spec(err: RegistryError) -> Self {
        match err {
            RegistryError::Std(error) => ContractError::Std(error),
            RegistryError::Unauthorized {} => ContractError::Unauthorized {},
            RegistryError::Claimed {} => ContractError::Claimed {},
            RegistryError::Expired {} => ContractError::Expired {},
        }
    }
}

impl From<StdError> for ContractError {
    fn from(err: StdError) -> (converted: Self) {
        ContractError::Std(err)
    }
}

impl vstd::std_specs::convert::FromSpecImpl<StdError> for ContractError {
    open spec fn obeys_from_spec() -> bool {
        true
    }

    open spec fn from_spec(err: StdError) -> Self {
        ContractError::Std(err)
    }
}

} // verus!
