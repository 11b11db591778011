//! Read-only queries on the ledger of the current epoch.

use vstd::prelude::*;
use super::account::{CreatorAccountId, FTAccountId};
use super::contract::MetaDaoContract;
use super::error::MetaDaoError;
use super::ledger::{any_settled, checked_total};
use super::nft::UserNFTRank;

verus! {

impl MetaDaoContract {
    /// Sum of what `creator_id` obtained in the current epoch: 0 for a
    /// creator without receipts, and an error where the epoch has no ledger.
    pub fn creator_total_funds(&self, creator_id: CreatorAccountId) -> (res: Result<
        u128,
        MetaDaoError,
    >)
        requires
            self@.total_received(creator_id@) <= u128::MAX,
        ensures
            res == if self@.creator_funding.contains_key(self@.epoch) {
                Ok::<u128, MetaDaoError>(self@.total_received(creator_id@) as u128)
            } else {
                Err::<u128, MetaDaoError>(MetaDaoError::CreatorIsNotRegistered)
            },
    {
        match self.creator_funding.get(&self.epoch) {
            None => Err(MetaDaoError::CreatorIsNotRegistered),
            Some(creator_funds_map) => match creator_funds_map.get(&creator_id) {
                Some(funds) => {
                    let total = checked_total(funds);
                    Ok(total.unwrap())
                },
                None => Ok(0u128),
            },
        }
    }

    /// Sum of what `creator_id` obtained in the current epoch, where it
    /// fits: `None` stands for a sum beyond the largest amount.
    pub fn creator_total_funds_checked(&self, creator_id: &CreatorAccountId) -> (res: Result<
        Option<u128>,
        MetaDaoError,
    >)
        ensures
            res == if !self@.creator_funding.contains_key(self@.epoch) {
                Err::<Option<u128>, MetaDaoError>(MetaDaoError::CreatorIsNotRegistered)
            } else if self@.total_received(creator_id@) <= u128::MAX {
                Ok::<Option<u128>, MetaDaoError>(Some(self@.total_received(creator_id@) as u128))
            } else {
                Ok::<Option<u128>, MetaDaoError>(None)
            },
    {
        match self.creator_funding.get(&self.epoch) {
            None => Err(MetaDaoError::CreatorIsNotRegistered),
            Some(creator_funds_map) => match creator_funds_map.get(creator_id) {
                Some(funds) => Ok(checked_total(funds)),
                None => Ok(Some(0u128)),
            },
        }
    }

    /// What `creator_id` asks in the token `ft_token_id` for a reward of
    /// tier `nft_rank` in the current epoch: an error where the creator has
    /// registered nothing for the epoch, or does not take the token for
    /// that tier.
    pub fn price_for(
        &self,
        creator_id: &CreatorAccountId,
        nft_rank: UserNFTRank,
        ft_token_id: &FTAccountId,
    ) -> (res: Result<u128, MetaDaoError>)
        ensures
            res == self@.price_for(creator_id@, nft_rank, ft_token_id@),
    {
        match self.creators_metadata.get(&self.epoch) {
            None => Err(MetaDaoError::CreatorIsNotRegistered),
            Some(creators_metadata) => match creators_metadata.get(creator_id) {
                None => Err(MetaDaoError::CreatorIsNotRegistered),
                Some(metadata) => metadata.required_amount(nft_rank, ft_token_id),
            },
        }
    }

    /// Whether something that `creator_id` obtained in the current epoch
    /// was forwarded to the creator.
    pub fn has_any_settled(&self, creator_id: &CreatorAccountId) -> (found: bool)
        ensures
            found == self@.has_any_settled(creator_id@),
    {
        match self.creator_funding.get(&self.epoch) {
            None => false,
            Some(creator_funds_map) => match creator_funds_map.get(creator_id) {
                Some(funds) => any_settled(funds),
                None => false,
            },
        }
    }
}

} // verus!
