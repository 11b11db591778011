//! The protocol as mathematics: the state of a funding contract and what
//! each operation makes of it.

use vstd::prelude::*;
use super::consts::{registration_deposit, MIN_PLEDGE_DEPOSIT};
use super::epoch::Epoch;
use super::error::MetaDaoError;
use super::ledger::{settled_rows, total_amount, FundedRow, ObtainedRow, some_row_settled};
use super::nft::{required_amount, UserNFTRank};
use super::registry::CreatorMetadata;

verus! {

/// Where an epoch stands in its life.
#[derive(Debug, Clone, Copy, PartialEq, Eq, Structural)]
pub enum EpochPhase {
    Inactive,
    Registration,
    Funding,
}

/// What a transfer that was sent out came back with.
#[derive(Debug, PartialEq, Eq)]
pub enum PromiseResult {
    NotReady,
    Successful(Vec<u8>),
    Failed,
}

/// Why the outcome of a settlement cannot be booked. Each of these is a
/// defect: whoever finds one gives up the booking, and the ledger stays as
/// it was.
#[derive(Debug, Clone, Copy, PartialEq, Eq, Structural)]
pub enum SettlementError {
    InvalidPromiseResultCount,
    PromiseFailed,
    InvalidCurrentEpoch,
    CreatorIsNotRegistered,
}

/// The rows that `ledger` holds for `account`: none where it knows no such account.
pub open spec fn rows_of<T>(ledger: Map<Seq<char>, Seq<T>>, account: Seq<char>) -> Seq<T> {
    if ledger.contains_key(account) {
        ledger[account]
    } else {
        Seq::empty()
    }
}

/// Whether `after` begins with the rows of `before`, each as it was or
/// marked as forwarded since.
pub open spec fn receipts_extended(before: Seq<ObtainedRow>, after: Seq<ObtainedRow>) -> bool {
    &&& before.len() <= after.len()
    &&& forall|i: int|
        0 <= i < before.len() ==> (#[trigger] after[i]) == before[i] || after[i] == (ObtainedRow {
            already_funded: true,
            ..before[i]
        })
}

/// Whether `after` begins with the rows of `before`.
pub open spec fn spendings_extended(before: Seq<FundedRow>, after: Seq<FundedRow>) -> bool {
    &&& before.len() <= after.len()
    &&& forall|i: int| 0 <= i < before.len() ==> (#[trigger] after[i]) == before[i]
}

/// The state of a funding contract.
pub struct ContractState {
    pub admin: Seq<char>,
    pub epoch: Epoch,
    pub creator_funding: Map<Epoch, Map<Seq<char>, Seq<ObtainedRow>>>,
    pub user_funds: Map<Epoch, Map<Seq<char>, Seq<FundedRow>>>,
    pub creators_per_epoch_set: Map<Epoch, Set<Seq<char>>>,
    pub creators_metadata: Map<Epoch, Map<Seq<char>, CreatorMetadata>>,
    pub allowed_fungible_tokens_funding: Map<Epoch, Set<Seq<char>>>,
    pub is_epoch_on: bool,
    pub in_registration: bool,
    pub in_funding: bool,
    pub in_minting: bool,
    pub nft_id: u32,
}

impl ContractState {
    /// The state of a contract that `admin` has just set up.
    pub open spec fn initial(admin: Seq<char>) -> ContractState {
        ContractState {
            admin,
            epoch: Epoch(0),
            creator_funding: Map::empty(),
            user_funds: Map::empty(),
            creators_per_epoch_set: Map::empty(),
            creators_metadata: Map::empty(),
            allowed_fungible_tokens_funding: Map::empty(),
            is_epoch_on: false,
            in_registration: false,
            in_funding: false,
            in_minting: false,
            nft_id: 0,
        }
    }

    /// The phase of the current epoch.
    pub open spec fn phase(self) -> EpochPhase {
        if self.in_funding {
            EpochPhase::Funding
        } else if self.in_registration {
            EpochPhase::Registration
        } else {
            EpochPhase::Inactive
        }
    }

    /// The phase of any epoch: only the current one can be in a phase.
    pub open spec fn phase_of(self, epoch: Epoch) -> EpochPhase {
        if epoch == self.epoch {
            self.phase()
        } else {
            EpochPhase::Inactive
        }
    }

    /// Whether `epoch` is the one that is open.
    pub open spec fn is_open(self, epoch: Epoch) -> bool {
        epoch == self.epoch && self.is_epoch_on
    }

    /// What the operations keep true of the flags: registration and funding
    /// never run together, and neither runs while the epoch is off.
    pub open spec fn flags_consistent(self) -> bool {
        &&& !(self.in_registration && self.in_funding)
        &&& (self.in_registration || self.in_funding) ==> self.is_epoch_on
    }

    /// Whether every container of the current epoch is there.
    pub open spec fn has_current_containers(self) -> bool {
        &&& self.creator_funding.contains_key(self.epoch)
        &&& self.user_funds.contains_key(self.epoch)
        &&& self.creators_per_epoch_set.contains_key(self.epoch)
        &&& self.creators_metadata.contains_key(self.epoch)
        &&& self.allowed_fungible_tokens_funding.contains_key(self.epoch)
    }

    /// Whether `creator` is registered for the current epoch.
    pub open spec fn is_registered(self, creator: Seq<char>) -> bool {
        self.creators_per_epoch_set.contains_key(self.epoch)
            && self.creators_per_epoch_set[self.epoch].contains(creator)
    }

    /// What `creator` obtained in `epoch`, row by row.
    pub open spec fn receipts_in(self, epoch: Epoch, creator: Seq<char>) -> Seq<ObtainedRow> {
        if self.creator_funding.contains_key(epoch) {
            rows_of(self.creator_funding[epoch], creator)
        } else {
            Seq::empty()
        }
    }

    /// What `supporter` spent in `epoch`, row by row.
    pub open spec fn spendings_in(self, epoch: Epoch, supporter: Seq<char>) -> Seq<FundedRow> {
        if self.user_funds.contains_key(epoch) {
            rows_of(self.user_funds[epoch], supporter)
        } else {
            Seq::empty()
        }
    }

    /// What `creator` obtained in the current epoch, row by row.
    pub open spec fn receipts(self, creator: Seq<char>) -> Seq<ObtainedRow> {
        self.receipts_in(self.epoch, creator)
    }

    /// What `supporter` spent in the current epoch, row by row.
    pub open spec fn spendings(self, supporter: Seq<char>) -> Seq<FundedRow> {
        self.spendings_in(self.epoch, supporter)
    }

    /// What holds of every state that the operations lead to from a new
    /// contract: the flags are consistent, no epoch after the current one
    /// has a ledger, and the ledger of the current epoch is empty until its
    /// funding starts.
    pub open spec fn well_run(self) -> bool {
        &&& self.flags_consistent()
        &&& forall|e: Epoch| #[trigger] self.creator_funding.contains_key(e) ==> e.0 <= self.epoch.0
        &&& forall|e: Epoch| #[trigger] self.user_funds.contains_key(e) ==> e.0 <= self.epoch.0
        &&& !self.in_funding ==> forall|account: Seq<char>| #[trigger]
            self.receipts(account).len() == 0
        &&& !self.in_funding ==> forall|account: Seq<char>| #[trigger]
            self.spendings(account).len() == 0
    }

    /// Whether `later` holds every row that `self` holds, in the same
    /// place, with nothing changed but a receipt that was marked as
    /// forwarded since.
    pub open spec fn history_kept_in(self, later: ContractState) -> bool {
        &&& forall|e: Epoch, account: Seq<char>|
            receipts_extended(#[trigger] self.receipts_in(e, account), later.receipts_in(e, account))
        &&& forall|e: Epoch, account: Seq<char>|
            spendings_extended(
                #[trigger] self.spendings_in(e, account),
                later.spendings_in(e, account),
            )
    }

    /// What `creator` asks in `token` for a reward of tier `rank` in the
    /// current epoch: an error where the creator has registered nothing for
    /// the epoch, or does not take the token for that tier.
    pub open spec fn price_for(self, creator: Seq<char>, rank: UserNFTRank, token: Seq<char>) -> Result<
        u128,
        MetaDaoError,
    > {
        if !self.creators_metadata.contains_key(self.epoch)
            || !self.creators_metadata[self.epoch].contains_key(creator) {
            Err(MetaDaoError::CreatorIsNotRegistered)
        } else {
            required_amount(self.creators_metadata[self.epoch][creator].price_table(rank), token)
        }
    }

    /// Sum of what `creator` obtained in the current epoch.
    pub open spec fn total_received(self, creator: Seq<char>) -> nat {
        total_amount(self.receipts(creator))
    }

    /// Whether something that `creator` obtained in the current epoch was forwarded.
    pub open spec fn has_any_settled(self, creator: Seq<char>) -> bool {
        some_row_settled(self.receipts(creator))
    }

    /// Opening the registration of the open epoch.
    pub open spec fn set_registration(self, caller: Seq<char>) -> Result<
        ContractState,
        MetaDaoError,
    > {
        if caller != self.admin {
            Err(MetaDaoError::InvalidAdminCall)
        } else if !self.is_epoch_on {
            Err(MetaDaoError::EpochIsOff)
        } else if self.in_funding {
            Err(MetaDaoError::AlreadyInFunding)
        } else if self.in_registration {
            Err(MetaDaoError::AlreadyInRegistration)
        } else {
            Ok(ContractState { in_registration: true, ..self })
        }
    }

    /// Going from registration to funding.
    pub open spec fn set_funding(self, caller: Seq<char>) -> Result<ContractState, MetaDaoError> {
        if caller != self.admin {
            Err(MetaDaoError::InvalidAdminCall)
        } else if !self.is_epoch_on {
            Err(MetaDaoError::EpochIsOff)
        } else if self.in_funding {
            Err(MetaDaoError::AlreadyInFunding)
        } else if !self.in_registration {
            Err(MetaDaoError::NotInRegistrationPeriod)
        } else {
            Ok(ContractState { in_registration: false, in_funding: true, ..self })
        }
    }

    /// Closing the open epoch.
    pub open spec fn end_epoch(self, caller: Seq<char>) -> Result<ContractState, MetaDaoError> {
        if caller != self.admin {
            Err(MetaDaoError::InvalidAdminCall)
        } else if !self.is_epoch_on {
            Err(MetaDaoError::EpochIsOff)
        } else if self.in_registration {
            Err(MetaDaoError::AlreadyInRegistration)
        } else if self.in_funding {
            Err(MetaDaoError::AlreadyInFunding)
        } else {
            Ok(
                ContractState {
                    is_epoch_on: false,
                    in_funding: false,
                    in_registration: false,
                    ..self
                },
            )
        }
    }

    /// The epoch that follows the current one.
    pub open spec fn next_epoch(self) -> Epoch {
        Epoch((self.epoch.0 + 1) as u16)
    }

    /// The tokens that the next epoch accepts: those that were chosen for
    /// it, or else those of the epoch before it. There are none to take
    /// over where no epoch comes before it, or where that epoch has none.
    pub open spec fn tokens_of_next_epoch(self, allowed_tokens: Option<Set<Seq<char>>>) -> Result<
        Set<Seq<char>>,
        MetaDaoError,
    > {
        match allowed_tokens {
            Some(tokens) => Ok(tokens),
            None => match self.next_epoch().previous() {
                None => Err(MetaDaoError::InvalidInitializationOfEpoch),
                Some(before) => if self.allowed_fungible_tokens_funding.contains_key(before) {
                    Ok(self.allowed_fungible_tokens_funding[before])
                } else {
                    Err(MetaDaoError::InvalidCurrentEpoch)
                },
            },
        }
    }

    /// Opening the next epoch, with fresh containers. Without
    /// `allowed_tokens` the new epoch accepts the tokens of the one before it.
    pub open spec fn create_new_epoch(
        self,
        caller: Seq<char>,
        allowed_tokens: Option<Set<Seq<char>>>,
    ) -> Result<ContractState, MetaDaoError>
        recommends
            self.epoch.0 < u16::MAX,
    {
        let next = self.next_epoch();
        if caller != self.admin {
            Err(MetaDaoError::InvalidAdminCall)
        } else if self.is_epoch_on {
            Err(MetaDaoError::UnableToCreateNewEpoch)
        } else {
            match self.tokens_of_next_epoch(allowed_tokens) {
                Err(e) => Err(e),
                Ok(tokens) => Ok(
                    ContractState {
                        epoch: next,
                        user_funds: self.user_funds.insert(next, Map::empty()),
                        creator_funding: self.creator_funding.insert(next, Map::empty()),
                        creators_metadata: self.creators_metadata.insert(next, Map::empty()),
                        creators_per_epoch_set: self.creators_per_epoch_set.insert(
                            next,
                            Set::empty(),
                        ),
                        allowed_fungible_tokens_funding: self.allowed_fungible_tokens_funding.insert(
                            next,
                            tokens,
                        ),
                        is_epoch_on: true,
                        ..self
                    },
                ),
            }
        }
    }

    /// Registering `creator` with `metadata` for the open epoch.
    pub open spec fn creator_registration(
        self,
        creator: Seq<char>,
        deposit: u128,
        metadata: CreatorMetadata,
    ) -> Result<ContractState, MetaDaoError> {
        let e = self.epoch;
        if deposit < registration_deposit() {
            Err(MetaDaoError::UncoveredStorageCosts)
        } else if !self.is_epoch_on {
            Err(MetaDaoError::EpochIsOff)
        } else if !self.in_registration {
            Err(MetaDaoError::NotInRegistrationPeriod)
        } else if !self.creator_funding.contains_key(e) || !self.creators_metadata.contains_key(e)
            || !self.creators_per_epoch_set.contains_key(e) {
            Err(MetaDaoError::EpochIsOff)
        } else {
            Ok(
                ContractState {
                    creator_funding: self.creator_funding.insert(
                        e,
                        self.creator_funding[e].insert(creator, Seq::empty()),
                    ),
                    creators_metadata: self.creators_metadata.insert(
                        e,
                        self.creators_metadata[e].insert(creator, metadata),
                    ),
                    creators_per_epoch_set: self.creators_per_epoch_set.insert(
                        e,
                        self.creators_per_epoch_set[e].insert(creator),
                    ),
                    ..self
                },
            )
        }
    }

    /// Recording the pledge of `amount` of `token` by `supporter` to `creator`
    /// for a reward of tier `rank`.
    pub open spec fn user_funding_creator(
        self,
        deposit: u128,
        supporter: Seq<char>,
        creator: Seq<char>,
        rank: UserNFTRank,
        amount: u128,
        token: Seq<char>,
    ) -> Result<ContractState, MetaDaoError> {
        let e = self.epoch;
        if deposit < MIN_PLEDGE_DEPOSIT {
            Err(MetaDaoError::UserDidNotAttachEnoughFunds)
        } else if !self.is_epoch_on {
            Err(MetaDaoError::EpochIsOff)
        } else if !self.in_funding {
            Err(MetaDaoError::NotInFundingPeriod)
        } else if !self.is_registered(creator) {
            Err(MetaDaoError::CreatorIsNotRegistered)
        } else if !self.user_funds.contains_key(e) || !self.creator_funding.contains_key(e) {
            Err(MetaDaoError::InvalidCurrentEpoch)
        } else {
            let spent = FundedRow { creator_id: creator, ft_token_id: token, amount };
            let obtained = ObtainedRow {
                user_id: supporter,
                ft_token_id: token,
                amount,
                nft_rank: rank,
                already_funded: false,
            };
            Ok(
                ContractState {
                    user_funds: self.user_funds.insert(
                        e,
                        self.user_funds[e].insert(
                            supporter,
                            rows_of(self.user_funds[e], supporter).push(spent),
                        ),
                    ),
                    creator_funding: self.creator_funding.insert(
                        e,
                        self.creator_funding[e].insert(
                            creator,
                            rows_of(self.creator_funding[e], creator).push(obtained),
                        ),
                    ),
                    ..self
                },
            )
        }
    }

    /// What stands in the way of booking the outcome of the transfer that
    /// forwards a pledge to `creator`: anything but exactly one outcome, an
    /// outcome that is no success, a current epoch without ledger, or a
    /// creator without a list of receipts in it. `None` where nothing does.
    pub open spec fn settlement_fault(self, outcomes: Seq<PromiseResult>, creator: Seq<char>) -> Option<
        SettlementError,
    > {
        let e = self.epoch;
        if outcomes.len() != 1 {
            Some(SettlementError::InvalidPromiseResultCount)
        } else if !(outcomes[0] is Successful) {
            Some(SettlementError::PromiseFailed)
        } else if !self.creator_funding.contains_key(e) {
            Some(SettlementError::InvalidCurrentEpoch)
        } else if !self.creator_funding[e].contains_key(creator) {
            Some(SettlementError::CreatorIsNotRegistered)
        } else {
            None
        }
    }

    /// Booking the confirmed transfer that forwards to `creator` what
    /// `supporter` pledged: the creator's receipts from that supporter in
    /// the current epoch are marked as forwarded.
    pub open spec fn on_external_send_ft_tokens_callback(
        self,
        creator: Seq<char>,
        supporter: Seq<char>,
    ) -> ContractState
        recommends
            self.creator_funding.contains_key(self.epoch),
            self.creator_funding[self.epoch].contains_key(creator),
    {
        let e = self.epoch;
        ContractState {
            creator_funding: self.creator_funding.insert(
                e,
                self.creator_funding[e].insert(
                    creator,
                    settled_rows(self.creator_funding[e][creator], supporter),
                ),
            ),
            ..self
        }
    }
}

} // verus!
