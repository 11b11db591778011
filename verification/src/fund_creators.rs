//! Settlement: sending to a creator what a supporter pledged, and booking
//! what comes back from the transfer.

use vstd::prelude::*;
use super::account::{CreatorAccountId, FTAccountId, UserAccountId};
use super::consts::{FT_TRANSFER_DEPOSIT, GAS_FOR_FT_TRANSFER};
use super::contract::{
    lemma_creator_ledger_insert, lemma_obtained_accounts_insert, MetaDaoContract,
};
use super::ledger::mark_settled;
use super::state::{PromiseResult, SettlementError};

verus! {

/// A transfer to send out, and the two accounts by which its outcome is
/// found in the ledger again.
#[derive(Debug)]
pub struct PendingSettlement {
    /// The token to move.
    pub ft_account_id: FTAccountId,
    /// The account to pay.
    pub creator_account_id: CreatorAccountId,
    /// The supporter whose pledge is forwarded.
    pub user_id: UserAccountId,
    /// How much to move.
    pub amount: u128,
    /// Gas for the transfer, and as much again for booking its outcome.
    pub gas: u64,
    /// Deposit that goes with the transfer.
    pub deposit: u128,
}

impl SettlementError {
    /// The text shown with this defect.
    pub open spec fn message(self) -> Seq<char> {
        match self {
            Self::InvalidPromiseResultCount => "MetaDaoContract::external_send_ft_tokens::Invalid promise result count, one should only have one promise result"@,
            Self::PromiseFailed => "MetaDaoContract::external_send_ft_tokens::Promise failed"@,
            Self::InvalidCurrentEpoch => "MetaDaoContract::external_send_ft_tokens::Invalid current epoch id"@,
            Self::CreatorIsNotRegistered => "MetaDaoContract::external_send_ft_tokens::Creator is not registered"@,
        }
    }

    /// The text shown with this defect.
    pub fn as_ref(&self) -> (text: &'static str)
        ensures
            text@ == self.message(),
    {
        match self {
            Self::InvalidPromiseResultCount => "MetaDaoContract::external_send_ft_tokens::Invalid promise result count, one should only have one promise result",
            Self::PromiseFailed => "MetaDaoContract::external_send_ft_tokens::Promise failed",
            Self::InvalidCurrentEpoch => "MetaDaoContract::external_send_ft_tokens::Invalid current epoch id",
            Self::CreatorIsNotRegistered => "MetaDaoContract::external_send_ft_tokens::Creator is not registered",
        }
    }
}

impl MetaDaoContract {
    /// Tells what stands in the way of booking the outcomes
    /// `promise_results` of the transfer that forwards a pledge to
    /// `creator_account_id`, if anything does. Booking needs exactly one
    /// outcome, which is a success, and a list of receipts of the creator
    /// in the ledger of the current epoch.
    pub fn settlement_fault(
        &self,
        promise_results: &Vec<PromiseResult>,
        creator_account_id: &CreatorAccountId,
    ) -> (fault: Option<SettlementError>)
        ensures
            fault == self@.settlement_fault(promise_results@, creator_account_id@),
    {
        if promise_results.len() != 1 {
            return Some(SettlementError::InvalidPromiseResultCount);
        }
        match &promise_results[0] {
            PromiseResult::Successful(_) => {},
            _ => {
                return Some(SettlementError::PromiseFailed);
            },
        }
        match self.creator_funding.get(&self.epoch) {
            None => Some(SettlementError::InvalidCurrentEpoch),
            Some(creator_fundings) => if creator_fundings.contains_key(creator_account_id) {
                None
            } else {
                Some(SettlementError::CreatorIsNotRegistered)
            },
        }
    }

    /// Books the confirmed transfer that forwards to `creator_account_id`
    /// what `user_id` pledged: every receipt that the creator has from that
    /// supporter in the current epoch is marked as forwarded, and nothing
    /// else changes. Only a single successful outcome for a creator with
    /// receipts is booked; whatever `settlement_fault` finds a defect in
    /// must not come here.
    pub fn on_external_send_ft_tokens_callback(
        &mut self,
        promise_results: &Vec<PromiseResult>,
        creator_account_id: &CreatorAccountId,
        user_id: &UserAccountId,
    )
        requires
            old(self)@.settlement_fault(promise_results@, creator_account_id@) is None,
        ensures
            final(self)@ == old(self)@.on_external_send_ft_tokens_callback(
                creator_account_id@,
                user_id@,
            ),
    {
        let epoch = self.epoch;
        let ghost fundings_before = self.creator_funding@[epoch];
        let mut creator_fundings = self.creator_funding.remove(&epoch).unwrap();
        let mut creator_funding = creator_fundings.remove(creator_account_id).unwrap();
        mark_settled(&mut creator_funding, user_id);
        let ghost settled = creator_funding;
        creator_fundings.insert(creator_account_id.clone(), creator_funding);
        proof {
            lemma_obtained_accounts_insert(
                fundings_before,
                creator_fundings,
                creator_account_id@,
                settled,
            );
            lemma_creator_ledger_insert(old(self).creator_funding@, epoch, creator_fundings);
        }
        self.creator_funding.insert(epoch, creator_fundings);
    }

    /// Makes up the transfer that forwards `amount` of the token
    /// `ft_account_id` to `creator_account_id` for the pledge of `user_id`.
    /// Nothing is booked yet: the ledger changes only once the transfer is
    /// known to have succeeded.
    pub fn external_send_ft_tokens(
        &self,
        creator_account_id: CreatorAccountId,
        user_id: &UserAccountId,
        ft_account_id: FTAccountId,
        amount: u128,
    ) -> (pending: PendingSettlement)
        ensures
            pending.ft_account_id == ft_account_id,
            pending.creator_account_id == creator_account_id,
            pending.user_id == *user_id,
            pending.amount == amount,
            pending.gas == GAS_FOR_FT_TRANSFER,
            pending.deposit == FT_TRANSFER_DEPOSIT,
    {
        PendingSettlement {
            ft_account_id,
            creator_account_id,
            user_id: user_id.clone(),
            amount,
            gas: GAS_FOR_FT_TRANSFER,
            deposit: FT_TRANSFER_DEPOSIT,
        }
    }
}

} // verus!
