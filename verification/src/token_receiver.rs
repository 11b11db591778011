//! The supporters' way in: a payment arrives with a tag that names a
//! creator and a tier, and becomes a pledge or is handed back.

use vstd::prelude::*;
use vstd::string::*;
use super::account::{is_valid_account_name, AccountId, FTAccountId, UserAccountId};
use super::contract::MetaDaoContract;
use super::nft::{required_amount, UserNFTRank};
use super::state::ContractState;
use super::text::{decimal_digits, decimal_text, first_part, second_part, split_tag};

verus! {

/// Why a payment was turned away. The payment then goes back whole, and
/// the contract stays exactly as it was.
#[derive(Debug, Clone, Copy, PartialEq, Eq, Structural)]
pub enum TransferError {
    /// No funding runs; the number is the current epoch.
    FundingClosed(u16),
    /// The tag does not start with an account name.
    InvalidCreatorAccountId,
    /// The current epoch has no registrations.
    InvalidEpoch,
    /// The creator that the tag names is not registered for the current epoch.
    CreatorNotRegistered,
    /// The creator does not take this token for the chosen tier.
    InvalidFungibleToken,
    /// The payment is below the price of the chosen tier.
    NotEnoughFunds,
}

/// The tier that a tag's second part names, if it names one.
pub open spec fn tier_of_tag(tag: Seq<char>) -> Option<UserNFTRank> {
    if tag == "common"@ {
        Some(UserNFTRank::Common)
    } else if tag == "uncommon"@ {
        Some(UserNFTRank::Uncommon)
    } else if tag == "rare"@ {
        Some(UserNFTRank::Rare)
    } else {
        None
    }
}

/// The tier that a pledge's tag asks for: what its second part names. A
/// tag without a second part asks for none.
pub open spec fn tier_of_message(msg: Seq<char>) -> Option<UserNFTRank> {
    match second_part(msg) {
        Some(tag) => tier_of_tag(tag),
        None => None,
    }
}

/// The tier that a tag's second part names, if it names one.
pub fn parse_rank(tag: &str) -> (rank: Option<UserNFTRank>)
    ensures
        rank == tier_of_tag(tag@),
{
    let tag = String::from_str(tag);
    if tag == String::from_str("common") {
        Some(UserNFTRank::Common)
    } else if tag == String::from_str("uncommon") {
        Some(UserNFTRank::Uncommon)
    } else if tag == String::from_str("rare") {
        Some(UserNFTRank::Rare)
    } else {
        None
    }
}

/// What becomes of a payment of `amount` of `token` that `sender` makes
/// with the tag `msg`: what is handed back of it, and the state after it;
/// or why it was turned away.
pub open spec fn transfer_outcome(
    state: ContractState,
    token: Seq<char>,
    deposit: u128,
    sender: Seq<char>,
    amount: u128,
    msg: Seq<char>,
) -> Result<(u128, ContractState), TransferError> {
    let e = state.epoch;
    let creator = first_part(msg);
    if !state.in_funding {
        Err(TransferError::FundingClosed(e.0))
    } else if !is_valid_account_name(creator) {
        Err(TransferError::InvalidCreatorAccountId)
    } else if !state.creators_metadata.contains_key(e) {
        Err(TransferError::InvalidEpoch)
    } else if !state.creators_metadata[e].contains_key(creator) {
        Err(TransferError::CreatorNotRegistered)
    } else {
        match tier_of_message(msg) {
            None => Ok((amount, state)),
            Some(rank) => match required_amount(
                state.creators_metadata[e][creator].price_table(rank),
                token,
            ) {
                Err(_) => Err(TransferError::InvalidFungibleToken),
                Ok(price) => if amount < price {
                    Err(TransferError::NotEnoughFunds)
                } else {
                    match state.user_funding_creator(deposit, sender, creator, rank, amount, token) {
                        Ok(next) => Ok((0u128, next)),
                        Err(_) => Ok((amount, state)),
                    }
                },
            },
        }
    }
}

impl TransferError {
    /// The text shown with this refusal.
    pub open spec fn message(self) -> Seq<char> {
        match self {
            Self::FundingClosed(epoch) => "MetadaoContract::ft_contract: Funding is not currently open for epoch "@
                + decimal_digits(epoch as nat),
            Self::InvalidCreatorAccountId => "MetaDaoContract::ft_on_transfer: failed to parse creator account id"@,
            Self::InvalidEpoch => "MetaDaoContract::ft_on_transfer: Invalid epoch"@,
            Self::CreatorNotRegistered => "MetaDaoContract::ft_on_transfer: Invalid creator account id for current epoch"@,
            Self::InvalidFungibleToken => "ft_on_transfer::Invalid fungible token id"@,
            Self::NotEnoughFunds => "ft_on_transfer::User did not provide enough funds to obtain the chosen NFT"@,
        }
    }

    /// The text shown with this refusal.
    pub fn to_string(&self) -> (text: String)
        ensures
            text@ == self.message(),
    {
        match self {
            Self::FundingClosed(epoch) => {
                let number = decimal_text(*epoch as u64);
                String::from_str(
                    "MetadaoContract::ft_contract: Funding is not currently open for epoch ",
                ).concat(number.as_str())
            },
            Self::InvalidCreatorAccountId => String::from_str(
                "MetaDaoContract::ft_on_transfer: failed to parse creator account id",
            ),
            Self::InvalidEpoch => String::from_str("MetaDaoContract::ft_on_transfer: Invalid epoch"),
            Self::CreatorNotRegistered => String::from_str(
                "MetaDaoContract::ft_on_transfer: Invalid creator account id for current epoch",
            ),
            Self::InvalidFungibleToken => String::from_str(
                "ft_on_transfer::Invalid fungible token id",
            ),
            Self::NotEnoughFunds => String::from_str(
                "ft_on_transfer::User did not provide enough funds to obtain the chosen NFT",
            ),
        }
    }
}

impl MetaDaoContract {
    /// Takes in a payment of `amount` of the token `ft_token_id` that
    /// `sender_id` makes with the tag `msg`, which reads `<creator>_<tier>`.
    /// Where the tag names none of the tiers `common`, `uncommon` and
    /// `rare`, or the pledge cannot be recorded, the whole amount is handed
    /// back; where the pledge is recorded, nothing is. A payment that comes
    /// while no funding runs, names no registered creator, or is below the
    /// price of the tier, is turned away.
    pub fn ft_on_transfer(
        &mut self,
        ft_token_id: FTAccountId,
        attached_deposit: u128,
        sender_id: UserAccountId,
        amount: u128,
        msg: String,
    ) -> (res: Result<u128, TransferError>)
        ensures
            match transfer_outcome(
                old(self)@,
                ft_token_id@,
                attached_deposit,
                sender_id@,
                amount,
                msg@,
            ) {
                Ok((unused, next)) => res == Ok::<u128, TransferError>(unused) && final(self)@
                    == next,
                Err(e) => res == Err::<u128, TransferError>(e) && *final(self) == *old(self),
            },
    {
        if !self.in_funding {
            return Err(TransferError::FundingClosed(self.epoch.count()));
        }
        let (creator_text, tier_text) = split_tag(msg.as_str());
        let creator_account_id = match AccountId::try_from(String::from_str(creator_text)) {
            Ok(id) => id,
            Err(_) => {
                return Err(TransferError::InvalidCreatorAccountId);
            },
        };
        let epoch = self.epoch;
        let creators_metadata = match self.creators_metadata.get(&epoch) {
            Some(all) => all,
            None => {
                return Err(TransferError::InvalidEpoch);
            },
        };
        let creator_metadata = match creators_metadata.get(&creator_account_id) {
            Some(metadata) => metadata,
            None => {
                return Err(TransferError::CreatorNotRegistered);
            },
        };
        let asked = match tier_text {
            Some(text) => parse_rank(text),
            None => None,
        };
        let user_nft_rank = match asked {
            Some(rank) => rank,
            None => {
                return Ok(amount);
            },
        };
        let min_fund_amount = match creator_metadata.required_amount(user_nft_rank, &ft_token_id) {
            Ok(price) => price,
            Err(_) => {
                return Err(TransferError::InvalidFungibleToken);
            },
        };
        if amount < min_fund_amount {
            return Err(TransferError::NotEnoughFunds);
        }
        match self.user_funding_creator(
            attached_deposit,
            sender_id,
            creator_account_id,
            user_nft_rank,
            amount,
            ft_token_id,
        ) {
            Err(_) => Ok(amount),
            Ok(()) => Ok(0),
        }
    }
}

} // verus!
