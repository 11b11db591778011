//! The funding contract: its data, and the administrator's operations that
//! take an epoch through its life.

use vstd::prelude::*;
use super::account::{AccountId, CreatorAccountId, FTAccountId, UserAccountId};
use super::account_map::AccountMap;
use super::account_set::AccountSet;
use super::epoch::Epoch;
use super::epoch_map::EpochMap;
use super::error::MetaDaoError;
use super::ledger::{
    funded_rows, obtained_rows, FundedRow, FundedTokenAmount, ObtainedRow, ObtainedTokenAmounts,
};
use super::registry::CreatorMetadata;
use super::consts::MIN_PLEDGE_DEPOSIT;
use super::nft::UserNFTRank;
use super::state::{rows_of, ContractState};

verus! {

/// The creator side of the ledger of every epoch.
pub type CreatorLedger = EpochMap<AccountMap<Vec<ObtainedTokenAmounts>>>;

/// The supporter side of the ledger of every epoch.
pub type SupporterLedger = EpochMap<AccountMap<Vec<FundedTokenAmount>>>;

/// A funding contract.
pub struct MetaDaoContract {
    /// The account that may steer the epochs.
    pub admin: AccountId,
    /// The current epoch.
    pub epoch: Epoch,
    /// What each creator obtained, per epoch.
    pub creator_funding: CreatorLedger,
    /// What each supporter spent, per epoch.
    pub user_funds: SupporterLedger,
    /// The creators that registered, per epoch.
    pub creators_per_epoch_set: EpochMap<AccountSet>,
    /// What each creator registered, per epoch.
    pub creators_metadata: EpochMap<AccountMap<CreatorMetadata>>,
    /// The tokens that pledges may be made in, per epoch.
    pub allowed_fungible_tokens_funding: EpochMap<AccountSet>,
    /// Whether the current epoch is open.
    pub is_epoch_on: bool,
    /// Whether creators may register.
    pub in_registration: bool,
    /// Whether supporters may pledge.
    pub in_funding: bool,
    /// Whether rewards are being issued.
    pub in_minting: bool,
    /// Number of the next reward.
    pub nft_id: u32,
}

/// What the creators of one epoch obtained, as plain data.
pub open spec fn obtained_accounts(accounts: AccountMap<Vec<ObtainedTokenAmounts>>) -> Map<
    Seq<char>,
    Seq<ObtainedRow>,
> {
    accounts@.map_values(|rows: Vec<ObtainedTokenAmounts>| obtained_rows(rows@))
}

/// What the supporters of one epoch spent, as plain data.
pub open spec fn funded_accounts(accounts: AccountMap<Vec<FundedTokenAmount>>) -> Map<
    Seq<char>,
    Seq<FundedRow>,
> {
    accounts@.map_values(|rows: Vec<FundedTokenAmount>| funded_rows(rows@))
}

/// The creator side of a ledger as plain data.
pub open spec fn creator_ledger_view(ledger: Map<Epoch, AccountMap<Vec<ObtainedTokenAmounts>>>) -> Map<
    Epoch,
    Map<Seq<char>, Seq<ObtainedRow>>,
> {
    ledger.map_values(|accounts: AccountMap<Vec<ObtainedTokenAmounts>>| obtained_accounts(accounts))
}

/// The supporter side of a ledger as plain data.
pub open spec fn supporter_ledger_view(ledger: Map<Epoch, AccountMap<Vec<FundedTokenAmount>>>) -> Map<
    Epoch,
    Map<Seq<char>, Seq<FundedRow>>,
> {
    ledger.map_values(|accounts: AccountMap<Vec<FundedTokenAmount>>| funded_accounts(accounts))
}

/// Sets of accounts per epoch as plain data.
pub open spec fn account_sets_view(sets: Map<Epoch, AccountSet>) -> Map<Epoch, Set<Seq<char>>> {
    sets.map_values(|accounts: AccountSet| accounts@)
}

/// Registrations per epoch as plain data.
pub open spec fn registrations_view(all: Map<Epoch, AccountMap<CreatorMetadata>>) -> Map<
    Epoch,
    Map<Seq<char>, CreatorMetadata>,
> {
    all.map_values(|accounts: AccountMap<CreatorMetadata>| accounts@)
}

/// The names of a list of accounts, as a set.
pub open spec fn names_of(accounts: Seq<AccountId>) -> Set<Seq<char>> {
    Set::new(|name: Seq<char>| exists|i: int| 0 <= i < accounts.len() && accounts[i]@ == name)
}

/// The names of a list of accounts, if there is a list.
pub open spec fn chosen_names(accounts: Option<Vec<AccountId>>) -> Option<Set<Seq<char>>> {
    match accounts {
        Some(list) => Some(names_of(list@)),
        None => None,
    }
}

/// Putting the accounts of one epoch into the creator side of a ledger.
pub proof fn lemma_creator_ledger_insert(
    ledger: Map<Epoch, AccountMap<Vec<ObtainedTokenAmounts>>>,
    epoch: Epoch,
    accounts: AccountMap<Vec<ObtainedTokenAmounts>>,
)
    ensures
        creator_ledger_view(ledger.insert(epoch, accounts)) == creator_ledger_view(ledger).insert(
            epoch,
            obtained_accounts(accounts),
        ),
        creator_ledger_view(ledger.remove(epoch).insert(epoch, accounts)) == creator_ledger_view(
            ledger,
        ).insert(epoch, obtained_accounts(accounts)),
{
    assert(creator_ledger_view(ledger.insert(epoch, accounts)) =~= creator_ledger_view(ledger).insert(
        epoch,
        obtained_accounts(accounts),
    ));
    assert(ledger.remove(epoch).insert(epoch, accounts) =~= ledger.insert(epoch, accounts));
}

/// Putting the accounts of one epoch into the supporter side of a ledger.
pub proof fn lemma_supporter_ledger_insert(
    ledger: Map<Epoch, AccountMap<Vec<FundedTokenAmount>>>,
    epoch: Epoch,
    accounts: AccountMap<Vec<FundedTokenAmount>>,
)
    ensures
        supporter_ledger_view(ledger.insert(epoch, accounts)) == supporter_ledger_view(
            ledger,
        ).insert(epoch, funded_accounts(accounts)),
        supporter_ledger_view(ledger.remove(epoch).insert(epoch, accounts))
            == supporter_ledger_view(ledger).insert(epoch, funded_accounts(accounts)),
{
    assert(supporter_ledger_view(ledger.insert(epoch, accounts)) =~= supporter_ledger_view(
        ledger,
    ).insert(epoch, funded_accounts(accounts)));
    assert(ledger.remove(epoch).insert(epoch, accounts) =~= ledger.insert(epoch, accounts));
}

/// Putting the set of one epoch among the sets of all epochs.
pub proof fn lemma_account_sets_insert(sets: Map<Epoch, AccountSet>, epoch: Epoch, accounts: AccountSet)
    ensures
        account_sets_view(sets.insert(epoch, accounts)) == account_sets_view(sets).insert(
            epoch,
            accounts@,
        ),
        account_sets_view(sets.remove(epoch).insert(epoch, accounts)) == account_sets_view(
            sets,
        ).insert(epoch, accounts@),
{
    assert(account_sets_view(sets.insert(epoch, accounts)) =~= account_sets_view(sets).insert(
        epoch,
        accounts@,
    ));
    assert(sets.remove(epoch).insert(epoch, accounts) =~= sets.insert(epoch, accounts));
}

/// Putting the registrations of one epoch among those of all epochs.
pub proof fn lemma_registrations_insert(
    all: Map<Epoch, AccountMap<CreatorMetadata>>,
    epoch: Epoch,
    accounts: AccountMap<CreatorMetadata>,
)
    ensures
        registrations_view(all.insert(epoch, accounts)) == registrations_view(all).insert(
            epoch,
            accounts@,
        ),
        registrations_view(all.remove(epoch).insert(epoch, accounts)) == registrations_view(
            all,
        ).insert(epoch, accounts@),
{
    assert(registrations_view(all.insert(epoch, accounts)) =~= registrations_view(all).insert(
        epoch,
        accounts@,
    ));
    assert(all.remove(epoch).insert(epoch, accounts) =~= all.insert(epoch, accounts));
}

/// Giving one creator new rows, seen as plain data.
pub proof fn lemma_obtained_accounts_insert(
    before: AccountMap<Vec<ObtainedTokenAmounts>>,
    after: AccountMap<Vec<ObtainedTokenAmounts>>,
    creator: Seq<char>,
    rows: Vec<ObtainedTokenAmounts>,
)
    requires
        after@ == before@.insert(creator, rows) || after@ == before@.remove(creator).insert(
            creator,
            rows,
        ),
    ensures
        obtained_accounts(after) == obtained_accounts(before).insert(creator, obtained_rows(rows@)),
{
    assert(before@.remove(creator).insert(creator, rows) =~= before@.insert(creator, rows));
    assert(obtained_accounts(after) =~= obtained_accounts(before).insert(
        creator,
        obtained_rows(rows@),
    ));
}

/// Giving one supporter new rows, seen as plain data.
pub proof fn lemma_funded_accounts_insert(
    before: AccountMap<Vec<FundedTokenAmount>>,
    after: AccountMap<Vec<FundedTokenAmount>>,
    supporter: Seq<char>,
    rows: Vec<FundedTokenAmount>,
)
    requires
        after@ == before@.insert(supporter, rows) || after@ == before@.remove(supporter).insert(
            supporter,
            rows,
        ),
    ensures
        funded_accounts(after) == funded_accounts(before).insert(supporter, funded_rows(rows@)),
{
    assert(before@.remove(supporter).insert(supporter, rows) =~= before@.insert(supporter, rows));
    assert(funded_accounts(after) =~= funded_accounts(before).insert(
        supporter,
        funded_rows(rows@),
    ));
}

/// The accounts of a list, as a set.
pub fn account_set_from(accounts: &Vec<AccountId>) -> (set: AccountSet)
    ensures
        set@ == names_of(accounts@),
{
    let mut set = AccountSet::new();
    let mut i: usize = 0;
    while i < accounts.len()
        invariant
            i <= accounts.len(),
            set@ == names_of(accounts@.take(i as int)),
        decreases accounts.len() - i,
    {
        let ghost before = set@;
        set.insert(&accounts[i]);
        proof {
            let shorter = accounts@.take(i as int);
            let longer = accounts@.take(i + 1);
            assert forall|name: Seq<char>| #[trigger]
                names_of(longer).contains(name) <==> before.insert(accounts[i as int]@).contains(
                    name,
                ) by {
                if names_of(longer).contains(name) {
                    let j = choose|j: int| 0 <= j < longer.len() && longer[j]@ == name;
                    if j < i {
                        assert(shorter[j]@ == name);
                    }
                }
                if before.contains(name) {
                    let j = choose|j: int| 0 <= j < shorter.len() && shorter[j]@ == name;
                    assert(longer[j]@ == name);
                }
                if name == accounts[i as int]@ {
                    assert(longer[i as int]@ == name);
                }
            }
            assert(set@ =~= names_of(longer));
        }
        i += 1;
    }
    proof {
        assert(accounts@.take(i as int) =~= accounts@);
    }
    set
}

impl View for MetaDaoContract {
    type V = ContractState;

    open spec fn view(&self) -> ContractState {
        ContractState {
            admin: self.admin@,
            epoch: self.epoch,
            creator_funding: creator_ledger_view(self.creator_funding@),
            user_funds: supporter_ledger_view(self.user_funds@),
            creators_per_epoch_set: account_sets_view(self.creators_per_epoch_set@),
            creators_metadata: registrations_view(self.creators_metadata@),
            allowed_fungible_tokens_funding: account_sets_view(
                self.allowed_fungible_tokens_funding@,
            ),
            is_epoch_on: self.is_epoch_on,
            in_registration: self.in_registration,
            in_funding: self.in_funding,
            in_minting: self.in_minting,
            nft_id: self.nft_id,
        }
    }
}

/// Whether an operation did what `outcome` says: on success the contract is
/// in the new state, and on failure it is exactly as it was.
pub open spec fn carried_out<E>(
    outcome: Result<ContractState, E>,
    before: MetaDaoContract,
    after: MetaDaoContract,
    res: Result<(), E>,
) -> bool {
    match outcome {
        Ok(next) => res == Ok::<(), E>(()) && after@ == next,
        Err(e) => res == Err::<(), E>(e) && after == before,
    }
}

impl MetaDaoContract {
    /// A contract that `admin` steers: epoch 0, nothing open, nothing recorded.
    pub fn new(admin: AccountId) -> (contract: Self)
        ensures
            contract@ == ContractState::initial(admin@),
    {
        let contract = MetaDaoContract {
            admin,
            epoch: Epoch(0u16),
            creator_funding: EpochMap::new(),
            user_funds: EpochMap::new(),
            is_epoch_on: false,
            in_registration: false,
            in_funding: false,
            in_minting: false,
            creators_per_epoch_set: EpochMap::new(),
            creators_metadata: EpochMap::new(),
            allowed_fungible_tokens_funding: EpochMap::new(),
            nft_id: 0u32,
        };
        proof {
            let s = contract@;
            let t = ContractState::initial(admin@);
            assert(s.creator_funding =~= t.creator_funding);
            assert(s.user_funds =~= t.user_funds);
            assert(s.creators_per_epoch_set =~= t.creators_per_epoch_set);
            assert(s.creators_metadata =~= t.creators_metadata);
            assert(s.allowed_fungible_tokens_funding =~= t.allowed_fungible_tokens_funding);
        }
        contract
    }

    /// Lets creators register for the open epoch. Only the administrator may
    /// do so, while the epoch is open and neither registration nor funding runs.
    pub fn set_registration(&mut self, caller: &AccountId) -> (res: Result<(), MetaDaoError>)
        ensures
            carried_out(old(self)@.set_registration(caller@), *old(self), *final(self), res),
    {
        if *caller != self.admin {
            return Err(MetaDaoError::InvalidAdminCall);
        }
        if !self.is_epoch_on {
            return Err(MetaDaoError::EpochIsOff);
        }
        if self.in_funding {
            return Err(MetaDaoError::AlreadyInFunding);
        }
        if self.in_registration {
            return Err(MetaDaoError::AlreadyInRegistration);
        }
        self.in_registration = true;
        Ok(())
    }

    /// Ends registration and lets supporters pledge. Only the administrator
    /// may do so, while the epoch is open and registration runs.
    pub fn set_funding(&mut self, caller: &AccountId) -> (res: Result<(), MetaDaoError>)
        ensures
            carried_out(old(self)@.set_funding(caller@), *old(self), *final(self), res),
    {
        if *caller != self.admin {
            return Err(MetaDaoError::InvalidAdminCall);
        }
        if !self.is_epoch_on {
            return Err(MetaDaoError::EpochIsOff);
        }
        if self.in_funding {
            return Err(MetaDaoError::AlreadyInFunding);
        }
        if !self.in_registration {
            return Err(MetaDaoError::NotInRegistrationPeriod);
        }
        self.in_registration = false;
        self.in_funding = true;
        Ok(())
    }

    /// Closes the open epoch. Only the administrator may do so, and only
    /// while neither registration nor funding runs.
    pub fn end_epoch(&mut self, caller: &AccountId) -> (res: Result<(), MetaDaoError>)
        ensures
            carried_out(old(self)@.end_epoch(caller@), *old(self), *final(self), res),
    {
        if *caller != self.admin {
            return Err(MetaDaoError::InvalidAdminCall);
        }
        if !self.is_epoch_on {
            return Err(MetaDaoError::EpochIsOff);
        }
        if self.in_registration {
            return Err(MetaDaoError::AlreadyInRegistration);
        }
        if self.in_funding {
            return Err(MetaDaoError::AlreadyInFunding);
        }
        self.is_epoch_on = false;
        self.in_funding = false;
        self.in_registration = false;
        Ok(())
    }

    /// Opens the next epoch with empty containers. Only the administrator may
    /// do so, and only while no epoch is open. The new epoch accepts the
    /// tokens of `allowed_ft_account_ids`, or, where none are given, the
    /// tokens that the current epoch accepts.
    pub fn create_new_epoch(
        &mut self,
        caller: &AccountId,
        allowed_ft_account_ids: Option<Vec<FTAccountId>>,
    ) -> (res: Result<(), MetaDaoError>)
        requires
            old(self).epoch.0 < u16::MAX,
        ensures
            carried_out(
                old(self)@.create_new_epoch(caller@, chosen_names(allowed_ft_account_ids)),
                *old(self),
                *final(self),
                res,
            ),
    {
        if *caller != self.admin {
            return Err(MetaDaoError::InvalidAdminCall);
        }
        if self.is_epoch_on {
            return Err(MetaDaoError::UnableToCreateNewEpoch);
        }
        let epoch = self.epoch.next_epoch();
        let tokens = match &allowed_ft_account_ids {
            Some(ft_acc_ids) => account_set_from(ft_acc_ids),
            None => {
                let before = match epoch.previous_epoch() {
                    Some(before) => before,
                    None => {
                        return Err(MetaDaoError::InvalidInitializationOfEpoch);
                    },
                };
                match self.allowed_fungible_tokens_funding.get(&before) {
                    Some(previous) => previous.clone(),
                    None => {
                        return Err(MetaDaoError::InvalidCurrentEpoch);
                    },
                }
            },
        };
        self.epoch.update_epoch();
        let user_funds: AccountMap<Vec<FundedTokenAmount>> = AccountMap::new();
        let creator_funding: AccountMap<Vec<ObtainedTokenAmounts>> = AccountMap::new();
        let creators_metadata: AccountMap<CreatorMetadata> = AccountMap::new();
        let creators = AccountSet::new();
        proof {
            lemma_supporter_ledger_insert(self.user_funds@, epoch, user_funds);
            lemma_creator_ledger_insert(self.creator_funding@, epoch, creator_funding);
            lemma_registrations_insert(self.creators_metadata@, epoch, creators_metadata);
            lemma_account_sets_insert(self.creators_per_epoch_set@, epoch, creators);
            lemma_account_sets_insert(self.allowed_fungible_tokens_funding@, epoch, tokens);
            assert(funded_accounts(user_funds) =~= Map::empty());
            assert(obtained_accounts(creator_funding) =~= Map::empty());
        }
        self.user_funds.insert(epoch, user_funds);
        self.creator_funding.insert(epoch, creator_funding);
        self.creators_metadata.insert(epoch, creators_metadata);
        self.creators_per_epoch_set.insert(epoch, creators);
        self.allowed_fungible_tokens_funding.insert(epoch, tokens);
        self.is_epoch_on = true;
        Ok(())
    }

    /// Records a pledge on both sides of the ledger of the open epoch: one
    /// row for the supporter and one, not yet forwarded, for the creator.
    /// The pledge is refused unless the deposit covers it, funding runs and
    /// the creator is registered.
    pub fn user_funding_creator(
        &mut self,
        attached_deposit: u128,
        user_id: UserAccountId,
        creator_account_id: CreatorAccountId,
        nft_rank: UserNFTRank,
        amount: u128,
        ft_token_id: FTAccountId,
    ) -> (res: Result<(), MetaDaoError>)
        ensures
            carried_out(
                old(self)@.user_funding_creator(
                    attached_deposit,
                    user_id@,
                    creator_account_id@,
                    nft_rank,
                    amount,
                    ft_token_id@,
                ),
                *old(self),
                *final(self),
                res,
            ),
    {
        if attached_deposit < MIN_PLEDGE_DEPOSIT {
            return Err(MetaDaoError::UserDidNotAttachEnoughFunds);
        }
        if !self.is_epoch_on {
            return Err(MetaDaoError::EpochIsOff);
        }
        if !self.in_funding {
            return Err(MetaDaoError::NotInFundingPeriod);
        }
        let epoch = self.epoch;
        let registered = match self.creators_per_epoch_set.get(&epoch) {
            Some(creators) => creators.contains(&creator_account_id),
            None => false,
        };
        if !registered {
            return Err(MetaDaoError::CreatorIsNotRegistered);
        }
        if !self.user_funds.contains_key(&epoch) || !self.creator_funding.contains_key(&epoch) {
            return Err(MetaDaoError::InvalidCurrentEpoch);
        }
        let funded_token_amount = FundedTokenAmount {
            creator_id: creator_account_id.clone(),
            ft_token_id: ft_token_id.clone(),
            amount,
        };
        let ghost supporters_before = self.user_funds@[epoch];
        let mut user_funds = self.user_funds.remove(&epoch).unwrap();
        let mut funds = match user_funds.remove(&user_id) {
            Some(funds) => funds,
            None => Vec::new(),
        };
        funds.push(funded_token_amount);
        proof {
            assert(funded_rows(funds@) =~= rows_of(
                funded_accounts(supporters_before),
                user_id@,
            ).push(funded_token_amount@));
        }
        let user_key = user_id.clone();
        let ghost funds_after = funds;
        user_funds.insert(user_key, funds);
        proof {
            lemma_funded_accounts_insert(supporters_before, user_funds, user_id@, funds_after);
            lemma_supporter_ledger_insert(old(self).user_funds@, epoch, user_funds);
        }
        self.user_funds.insert(epoch, user_funds);

        let obtained_token_amount = ObtainedTokenAmounts {
            user_id,
            ft_token_id,
            amount,
            nft_rank,
            already_funded: false,
        };
        let ghost creators_before = self.creator_funding@[epoch];
        let mut creator_fundings = self.creator_funding.remove(&epoch).unwrap();
        let mut amounts = match creator_fundings.remove(&creator_account_id) {
            Some(amounts) => amounts,
            None => Vec::new(),
        };
        amounts.push(obtained_token_amount);
        proof {
            assert(obtained_rows(amounts@) =~= rows_of(
                obtained_accounts(creators_before),
                creator_account_id@,
            ).push(obtained_token_amount@));
        }
        let ghost amounts_after = amounts;
        creator_fundings.insert(creator_account_id, amounts);
        proof {
            lemma_obtained_accounts_insert(
                creators_before,
                creator_fundings,
                creator_account_id@,
                amounts_after,
            );
            lemma_creator_ledger_insert(old(self).creator_funding@, epoch, creator_fundings);
        }
        self.creator_funding.insert(epoch, creator_fundings);
        Ok(())
    }
}

} // verus!
