//! The recoverable failures of the funding protocol.

use vstd::prelude::*;
use vstd::string::*;

verus! {

/// Why an operation was refused. Every refusal leaves the state as it was.
#[derive(Debug, Clone, Copy, PartialEq, Eq, Structural)]
pub enum MetaDaoError {
    InvalidAdminCall,
    UnableToCreateNewEpoch,
    CreatorIsNotRegistered,
    InvalidCurrentEpoch,
    EpochIsOff,
    NotInFundingPeriod,
    UserDidNotAttachEnoughFunds,
    UserAlreadyRegisteredFundsToCreator,
    AlreadyInFunding,
    AlreadyInRegistration,
    NotInRegistrationPeriod,
    InvalidInitializationOfEpoch,
    InvalidFTTokenId,
    UncoveredStorageCosts,
}

impl MetaDaoError {
    /// The text shown to a caller for this failure.
    pub open spec fn message(self) -> Seq<char> {
        match self {
            Self::InvalidAdminCall => "Invalid Admin call"@,
            Self::UnableToCreateNewEpoch => "Unable to create a new epoch, while previous epoch is still ongoing"@,
            Self::CreatorIsNotRegistered => "Creator is not registered for current epoch"@,
            Self::InvalidCurrentEpoch => "Invalid current epoch"@,
            Self::EpochIsOff => "Currently, epoch is off"@,
            Self::NotInFundingPeriod => "Not in funding period"@,
            Self::UserDidNotAttachEnoughFunds => "User did not attach enough funds to contract call"@,
            Self::UserAlreadyRegisteredFundsToCreator => "User already registered funds to creator"@,
            Self::AlreadyInFunding => "Already in funding period"@,
            Self::AlreadyInRegistration => "Already in Registration period"@,
            Self::NotInRegistrationPeriod => "Not in Registration period"@,
            Self::InvalidInitializationOfEpoch => "Invalid initialization of epoch"@,
            Self::InvalidFTTokenId => "Invalid Fungible token id"@,
            Self::UncoveredStorageCosts => "Uncovered storage costs"@,
        }
    }

    /// The failure's text, borrowed.
    pub fn as_ref(&self) -> (text: &'static str)
        ensures
            text@ == self.message(),
    {
        match self {
            Self::InvalidAdminCall => "Invalid Admin call",
            Self::UnableToCreateNewEpoch => {
                "Unable to create a new epoch, while previous epoch is still ongoing"
            },
            Self::CreatorIsNotRegistered => "Creator is not registered for current epoch",
            Self::InvalidCurrentEpoch => "Invalid current epoch",
            Self::EpochIsOff => "Currently, epoch is off",
            Self::NotInFundingPeriod => "Not in funding period",
            Self::UserDidNotAttachEnoughFunds => {
                "User did not attach enough funds to contract call"
            },
            Self::UserAlreadyRegisteredFundsToCreator => "User already registered funds to creator",
            Self::AlreadyInFunding => "Already in funding period",
            Self::AlreadyInRegistration => "Already in Registration period",
            Self::NotInRegistrationPeriod => "Not in Registration period",
            Self::InvalidInitializationOfEpoch => "Invalid initialization of epoch",
            Self::InvalidFTTokenId => "Invalid Fungible token id",
            Self::UncoveredStorageCosts => "Uncovered storage costs",
        }
    }

    /// The failure's text, owned.
    pub fn to_string(&self) -> (text: String)
        ensures
            text@ == self.message(),
    {
        String::from_str(self.as_ref())
    }
}

} // verus!
