//! What holds of the protocol whatever the state: the laws that the
//! operations obey, each proved of the transitions that the operations
//! carry out.

use vstd::prelude::*;
use super::epoch::Epoch;
use super::error::MetaDaoError;
use super::ledger::{
    lemma_total_push, lemma_total_settled, settled_row, settled_rows, FundedRow, ObtainedRow,
};
use super::nft::UserNFTRank;
use super::registry::CreatorMetadata;
use super::text::first_part;
use super::token_receiver::{tier_of_message, transfer_outcome};
use super::state::{
    receipts_extended, spendings_extended, ContractState, EpochPhase, PromiseResult, SettlementError,
};

verus! {

/// At any time at most one epoch is in a phase, and at most one is open:
/// two epochs that are not inactive are the same epoch.
pub proof fn lemma_one_active_epoch(state: ContractState, first: Epoch, second: Epoch)
    ensures
        state.phase_of(first) != EpochPhase::Inactive && state.phase_of(second)
            != EpochPhase::Inactive ==> first == second,
        state.is_open(first) && state.is_open(second) ==> first == second,
        state.phase_of(first) != EpochPhase::Inactive ==> first == state.epoch,
{
}

/// A contract starts with consistent flags: nothing runs and no epoch is open.
pub proof fn lemma_initial_flags(admin: Seq<char>)
    ensures
        ContractState::initial(admin).flags_consistent(),
        ContractState::initial(admin).phase() == EpochPhase::Inactive,
        !ContractState::initial(admin).is_epoch_on,
{
}

/// The administrator's operations keep the flags consistent: registration
/// and funding never run together, and neither runs while the epoch is off.
pub proof fn lemma_admin_operations_keep_flags(
    state: ContractState,
    caller: Seq<char>,
    allowed_tokens: Option<Set<Seq<char>>>,
)
    requires
        state.flags_consistent(),
    ensures
        state.set_registration(caller) matches Ok(next) ==> next.flags_consistent(),
        state.set_funding(caller) matches Ok(next) ==> next.flags_consistent(),
        state.end_epoch(caller) matches Ok(next) ==> next.flags_consistent(),
        state.create_new_epoch(caller, allowed_tokens) matches Ok(next) ==> next.flags_consistent(),
{
}

/// Registering a creator, recording a pledge and booking a settlement leave
/// the epoch and its flags alone.
pub proof fn lemma_ledger_operations_keep_flags(
    state: ContractState,
    deposit: u128,
    supporter: Seq<char>,
    creator: Seq<char>,
    rank: UserNFTRank,
    amount: u128,
    token: Seq<char>,
    metadata: CreatorMetadata,
    outcomes: Seq<PromiseResult>,
)
    ensures
        state.creator_registration(creator, deposit, metadata) matches Ok(next) ==> same_phase(
            state,
            next,
        ),
        state.user_funding_creator(deposit, supporter, creator, rank, amount, token) matches Ok(
            next,
        ) ==> same_phase(state, next),
        state.settlement_fault(outcomes, creator) is None ==> same_phase(
            state,
            state.on_external_send_ft_tokens_callback(creator, supporter),
        ),
{
}

/// Whether two states are in the same epoch with the same flags.
pub open spec fn same_phase(before: ContractState, after: ContractState) -> bool {
    &&& after.epoch == before.epoch
    &&& after.is_epoch_on == before.is_epoch_on
    &&& after.in_registration == before.in_registration
    &&& after.in_funding == before.in_funding
}

/// A new epoch opens only while none is open, takes the next number, and
/// starts in no phase; what earlier epochs hold stays as it is.
pub proof fn lemma_new_epoch_follows(
    state: ContractState,
    caller: Seq<char>,
    allowed_tokens: Option<Set<Seq<char>>>,
)
    requires
        state.flags_consistent(),
        state.epoch.0 < u16::MAX,
        state.create_new_epoch(caller, allowed_tokens) is Ok,
    ensures
        !state.is_epoch_on,
        ({
            let next = state.create_new_epoch(caller, allowed_tokens).unwrap();
            &&& next.epoch@ == state.epoch@ + 1
            &&& next.is_epoch_on
            &&& next.phase() == EpochPhase::Inactive
            &&& next.has_current_containers()
            &&& next.creator_funding[next.epoch] == Map::<Seq<char>, Seq<ObtainedRow>>::empty()
            &&& next.user_funds[next.epoch] == Map::<Seq<char>, Seq<FundedRow>>::empty()
            &&& forall|e: Epoch|
                e != next.epoch && #[trigger] state.creator_funding.contains_key(e)
                    ==> next.creator_funding.contains_key(e) && next.creator_funding[e]
                    == state.creator_funding[e]
            &&& forall|e: Epoch|
                e != next.epoch && #[trigger] state.user_funds.contains_key(e)
                    ==> next.user_funds.contains_key(e) && next.user_funds[e]
                    == state.user_funds[e]
        }),
{
}

/// Closing an epoch that succeeds leaves the epoch off and both phase flags
/// cleared; and it never succeeds while registration or funding runs.
pub proof fn lemma_closing_clears_flags(state: ContractState, caller: Seq<char>)
    ensures
        state.end_epoch(caller) matches Ok(next) ==> !next.is_epoch_on && !next.in_registration
            && !next.in_funding && next.phase() == EpochPhase::Inactive,
        state.in_registration || state.in_funding ==> state.end_epoch(caller) is Err,
        state.end_epoch(caller) is Ok ==> !state.in_registration && !state.in_funding,
{
}

/// Registration, then funding: after the two, the epoch is in funding with
/// registration over, and closing it is refused for as long as funding runs.
pub proof fn lemma_registration_then_funding(state: ContractState, caller: Seq<char>)
    requires
        state.set_registration(caller) is Ok,
    ensures
        ({
            let registering = state.set_registration(caller).unwrap();
            let funding = registering.set_funding(caller);
            &&& registering.phase() == EpochPhase::Registration
            &&& registering.end_epoch(caller) == Err::<ContractState, _>(
                MetaDaoError::AlreadyInRegistration,
            )
            &&& funding is Ok
            &&& funding.unwrap().phase() == EpochPhase::Funding
            &&& !funding.unwrap().in_registration
            &&& funding.unwrap().is_epoch_on
            &&& funding.unwrap().end_epoch(caller) == Err::<ContractState, _>(
                MetaDaoError::AlreadyInFunding,
            )
        }),
{
}

/// Funding never starts without a registration before it in the same epoch.
pub proof fn lemma_funding_needs_registration(state: ContractState, caller: Seq<char>)
    ensures
        state.set_funding(caller) is Ok ==> state.in_registration && state.is_epoch_on,
        state.set_registration(caller) is Ok ==> state.is_epoch_on && state.phase()
            == EpochPhase::Inactive,
{
}

/// A pledge that is recorded adds exactly one row to the supporter's list
/// and one, not yet forwarded, to the creator's list, both with the
/// pledge's token and amount; the creator's total rises by the amount; and
/// the rows of every other account stay as they are.
pub proof fn lemma_pledge_adds_one_row_on_each_side(
    state: ContractState,
    deposit: u128,
    supporter: Seq<char>,
    creator: Seq<char>,
    rank: UserNFTRank,
    amount: u128,
    token: Seq<char>,
)
    requires
        state.user_funding_creator(deposit, supporter, creator, rank, amount, token) is Ok,
    ensures
        ({
            let next = state.user_funding_creator(
                deposit,
                supporter,
                creator,
                rank,
                amount,
                token,
            ).unwrap();
            &&& next.spendings(supporter) == state.spendings(supporter).push(
                FundedRow { creator_id: creator, ft_token_id: token, amount },
            )
            &&& next.receipts(creator) == state.receipts(creator).push(
                ObtainedRow {
                    user_id: supporter,
                    ft_token_id: token,
                    amount,
                    nft_rank: rank,
                    already_funded: false,
                },
            )
            &&& next.total_received(creator) == state.total_received(creator) + amount
            &&& forall|other: Seq<char>|
                other != supporter ==> #[trigger] next.spendings(other) == state.spendings(other)
            &&& forall|other: Seq<char>|
                other != creator ==> #[trigger] next.receipts(other) == state.receipts(other)
            &&& forall|other: Seq<char>|
                other != creator ==> #[trigger] next.total_received(other) == state.total_received(
                    other,
                )
        }),
{
    let next = state.user_funding_creator(deposit, supporter, creator, rank, amount, token).unwrap();
    lemma_total_push(
        state.receipts(creator),
        ObtainedRow {
            user_id: supporter,
            ft_token_id: token,
            amount,
            nft_rank: rank,
            already_funded: false,
        },
    );
    assert forall|other: Seq<char>| other != creator implies #[trigger] next.receipts(other)
        == state.receipts(other) by {}
    assert forall|other: Seq<char>| other != creator implies #[trigger] next.total_received(other)
        == state.total_received(other) by {
        assert(next.receipts(other) == state.receipts(other));
    }
}

/// Booking a confirmed transfer marks as forwarded exactly the creator's
/// rows of that supporter, and leaves supporter, token, amount and tier of
/// every row, the creator's total, the rows of every other creator and all
/// that the supporters spent as they were.
pub proof fn lemma_settlement_marks_matching_rows(
    state: ContractState,
    outcomes: Seq<PromiseResult>,
    creator: Seq<char>,
    supporter: Seq<char>,
)
    requires
        state.settlement_fault(outcomes, creator) is None,
    ensures
        ({
            let next = state.on_external_send_ft_tokens_callback(creator, supporter);
            let before = state.receipts(creator);
            let after = next.receipts(creator);
            &&& after.len() == before.len()
            &&& forall|i: int|
                0 <= i < before.len() ==> {
                    &&& (#[trigger] after[i]).user_id == before[i].user_id
                    &&& after[i].ft_token_id == before[i].ft_token_id
                    &&& after[i].amount == before[i].amount
                    &&& after[i].nft_rank == before[i].nft_rank
                    &&& after[i].already_funded == (before[i].already_funded || before[i].user_id
                        == supporter)
                }
            &&& next.total_received(creator) == state.total_received(creator)
            &&& forall|other: Seq<char>|
                other != creator ==> #[trigger] next.receipts(other) == state.receipts(other)
            &&& next.user_funds == state.user_funds
            &&& next.creators_metadata == state.creators_metadata
            &&& next.creators_per_epoch_set == state.creators_per_epoch_set
        }),
{
    let next = state.on_external_send_ft_tokens_callback(creator, supporter);
    lemma_total_settled(state.receipts(creator), supporter);
    assert forall|other: Seq<char>| other != creator implies #[trigger] next.receipts(other)
        == state.receipts(other) by {}
}

/// Booking the same confirmed transfer a second time is as possible as the
/// first time, and changes nothing.
pub proof fn lemma_settlement_is_idempotent(
    state: ContractState,
    outcomes: Seq<PromiseResult>,
    creator: Seq<char>,
    supporter: Seq<char>,
)
    requires
        state.settlement_fault(outcomes, creator) is None,
    ensures
        ({
            let once = state.on_external_send_ft_tokens_callback(creator, supporter);
            &&& once.settlement_fault(outcomes, creator) is None
            &&& once.on_external_send_ft_tokens_callback(creator, supporter) == once
        }),
{
    let once = state.on_external_send_ft_tokens_callback(creator, supporter);
    let twice = once.on_external_send_ft_tokens_callback(creator, supporter);
    let e = state.epoch;
    let rows = state.creator_funding[e][creator];
    assert(settled_rows(settled_rows(rows, supporter), supporter) =~= settled_rows(rows, supporter));
    assert(twice.creator_funding[e] =~= once.creator_funding[e]);
    assert(twice.creator_funding =~= once.creator_funding);
}

/// A transfer that failed, is not ready, or came back with no outcome or
/// with more than one, is a defect whatever the ledger holds: it is never
/// among what is booked, so that no row changes on its account.
pub proof fn lemma_failed_outcome_is_a_defect(
    state: ContractState,
    outcomes: Seq<PromiseResult>,
    creator: Seq<char>,
)
    requires
        outcomes.len() != 1 || !(outcomes[0] is Successful),
    ensures
        state.settlement_fault(outcomes, creator) == (if outcomes.len() != 1 {
            Some(SettlementError::InvalidPromiseResultCount)
        } else {
            Some(SettlementError::PromiseFailed)
        }),
{
}

/// A single successful outcome is booked exactly where the creator has a
/// list of receipts in the ledger of the current epoch.
pub proof fn lemma_success_is_booked_for_known_creators(
    state: ContractState,
    outcomes: Seq<PromiseResult>,
    creator: Seq<char>,
)
    requires
        outcomes.len() == 1,
        outcomes[0] is Successful,
    ensures
        state.settlement_fault(outcomes, creator) is None <==> state.creator_funding.contains_key(
            state.epoch,
        ) && state.creator_funding[state.epoch].contains_key(creator),
{
}

/// A row that is marked as forwarded stays so, and a row of another
/// supporter is never touched.
pub proof fn lemma_settled_row_stays(row: ObtainedRow, supporter: Seq<char>)
    ensures
        row.already_funded ==> settled_row(row, supporter).already_funded,
        row.user_id != supporter ==> settled_row(row, supporter) == row,
        settled_row(settled_row(row, supporter), supporter) == settled_row(row, supporter),
{
}

/// A new contract is well run.
pub proof fn lemma_initial_state_is_well_run(admin: Seq<char>)
    ensures
        ContractState::initial(admin).well_run(),
{
}

/// While the counter can still advance, the epoch to open has one before
/// it, the current one, so that its opening never fails for want of one.
pub proof fn lemma_next_epoch_has_one_before(
    state: ContractState,
    caller: Seq<char>,
    allowed_tokens: Option<Set<Seq<char>>>,
)
    requires
        state.epoch.0 < u16::MAX,
    ensures
        state.next_epoch().previous() == Some(state.epoch),
        state.create_new_epoch(caller, allowed_tokens) != Err::<ContractState, _>(
            MetaDaoError::InvalidInitializationOfEpoch,
        ),
{
}

/// A step that leaves the epoch and the ledger alone, and starts no
/// funding unless the flags stay consistent, leads from a well-run state to
/// a well-run state and keeps every row.
proof fn lemma_same_ledger_same_history(state: ContractState, next: ContractState)
    requires
        state.well_run(),
        next.flags_consistent(),
        next.epoch == state.epoch,
        next.creator_funding == state.creator_funding,
        next.user_funds == state.user_funds,
        !next.in_funding ==> !state.in_funding,
    ensures
        next.well_run(),
        state.history_kept_in(next),
{
    assert forall|account: Seq<char>| !next.in_funding implies #[trigger] next.receipts(
        account,
    ).len() == 0 by {
        assert(state.receipts(account).len() == 0);
    }
    assert forall|account: Seq<char>| !next.in_funding implies #[trigger] next.spendings(
        account,
    ).len() == 0 by {
        assert(state.spendings(account).len() == 0);
    }
}

/// The administrator's operations lead from a well-run state to a well-run
/// state, and keep every row of the ledger of every epoch.
pub proof fn lemma_admin_operations_keep_history(
    state: ContractState,
    caller: Seq<char>,
    allowed_tokens: Option<Set<Seq<char>>>,
)
    requires
        state.well_run(),
        state.epoch.0 < u16::MAX,
    ensures
        state.set_registration(caller) matches Ok(next) ==> next.well_run()
            && state.history_kept_in(next),
        state.set_funding(caller) matches Ok(next) ==> next.well_run() && state.history_kept_in(
            next,
        ),
        state.end_epoch(caller) matches Ok(next) ==> next.well_run() && state.history_kept_in(next),
        state.create_new_epoch(caller, allowed_tokens) matches Ok(next) ==> next.well_run()
            && state.history_kept_in(next),
{
    if state.set_registration(caller) is Ok {
        lemma_same_ledger_same_history(state, state.set_registration(caller).unwrap());
    }
    if state.set_funding(caller) is Ok {
        lemma_same_ledger_same_history(state, state.set_funding(caller).unwrap());
    }
    if state.end_epoch(caller) is Ok {
        lemma_same_ledger_same_history(state, state.end_epoch(caller).unwrap());
    }
    if state.create_new_epoch(caller, allowed_tokens) is Ok {
        let next = state.create_new_epoch(caller, allowed_tokens).unwrap();
        assert forall|e: Epoch, account: Seq<char>|
            receipts_extended(
                #[trigger] state.receipts_in(e, account),
                next.receipts_in(e, account),
            ) by {
            if e == next.epoch {
                assert(!state.creator_funding.contains_key(e));
            }
        }
        assert forall|e: Epoch, account: Seq<char>|
            spendings_extended(
                #[trigger] state.spendings_in(e, account),
                next.spendings_in(e, account),
            ) by {
            if e == next.epoch {
                assert(!state.user_funds.contains_key(e));
            }
        }
        assert forall|account: Seq<char>| #[trigger] next.receipts(account).len() == 0 by {
            assert(next.receipts(account) == next.receipts_in(next.epoch, account));
        }
        assert forall|account: Seq<char>| #[trigger] next.spendings(account).len() == 0 by {
            assert(next.spendings(account) == next.spendings_in(next.epoch, account));
        }
    }
}

/// Registering a creator leads from a well-run state to a well-run state,
/// and keeps every row of the ledger of every epoch.
pub proof fn lemma_registration_keeps_history(
    state: ContractState,
    creator: Seq<char>,
    deposit: u128,
    metadata: CreatorMetadata,
)
    requires
        state.well_run(),
        state.creator_registration(creator, deposit, metadata) is Ok,
    ensures
        state.creator_registration(creator, deposit, metadata).unwrap().well_run(),
        state.history_kept_in(state.creator_registration(creator, deposit, metadata).unwrap()),
{
    let next = state.creator_registration(creator, deposit, metadata).unwrap();
    assert(!state.in_funding);
    assert forall|e: Epoch, account: Seq<char>|
        receipts_extended(
            #[trigger] state.receipts_in(e, account),
            next.receipts_in(e, account),
        ) by {
        if e == state.epoch && account == creator {
            assert(state.receipts(account).len() == 0);
        }
    }
    assert forall|account: Seq<char>| #[trigger] next.receipts(account).len() == 0 by {
        if account != creator {
            assert(state.receipts(account).len() == 0);
            assert(next.receipts(account) == state.receipts(account));
        }
    }
    assert forall|account: Seq<char>| #[trigger] next.spendings(account).len() == 0 by {
        assert(state.spendings(account).len() == 0);
        assert(next.spendings(account) == state.spendings(account));
    }
}

/// Recording a pledge leads from a well-run state to a well-run state, and
/// keeps every row of the ledger of every epoch.
pub proof fn lemma_pledge_keeps_history(
    state: ContractState,
    deposit: u128,
    supporter: Seq<char>,
    creator: Seq<char>,
    rank: UserNFTRank,
    amount: u128,
    token: Seq<char>,
)
    requires
        state.well_run(),
        state.user_funding_creator(deposit, supporter, creator, rank, amount, token) is Ok,
    ensures
        state.user_funding_creator(
            deposit,
            supporter,
            creator,
            rank,
            amount,
            token,
        ).unwrap().well_run(),
        state.history_kept_in(
            state.user_funding_creator(deposit, supporter, creator, rank, amount, token).unwrap(),
        ),
{
    let next = state.user_funding_creator(deposit, supporter, creator, rank, amount, token).unwrap();
    assert forall|e: Epoch, account: Seq<char>|
        receipts_extended(
            #[trigger] state.receipts_in(e, account),
            next.receipts_in(e, account),
        ) by {}
    assert forall|e: Epoch, account: Seq<char>|
        spendings_extended(
            #[trigger] state.spendings_in(e, account),
            next.spendings_in(e, account),
        ) by {}
}

/// Booking a settlement leads from a well-run state to a well-run state,
/// and keeps every row of the ledger of every epoch.
pub proof fn lemma_settlement_keeps_history(
    state: ContractState,
    outcomes: Seq<PromiseResult>,
    creator: Seq<char>,
    supporter: Seq<char>,
)
    requires
        state.well_run(),
        state.settlement_fault(outcomes, creator) is None,
    ensures
        state.on_external_send_ft_tokens_callback(creator, supporter).well_run(),
        state.history_kept_in(state.on_external_send_ft_tokens_callback(creator, supporter)),
{
    let next = state.on_external_send_ft_tokens_callback(creator, supporter);
    assert forall|e: Epoch, account: Seq<char>|
        receipts_extended(
            #[trigger] state.receipts_in(e, account),
            next.receipts_in(e, account),
        ) by {}
    assert forall|account: Seq<char>| !state.in_funding implies #[trigger] next.receipts(
        account,
    ).len() == 0 by {
        assert(state.receipts(account).len() == 0);
    }
    assert forall|account: Seq<char>| !state.in_funding implies #[trigger] next.spendings(
        account,
    ).len() == 0 by {
        assert(state.spendings(account).len() == 0);
        assert(next.spendings(account) == state.spendings(account));
    }
}

/// A payment that is not turned away is either recorded whole as a pledge
/// to the creator that its tag names, at no less than the price of the
/// tier, or handed back whole with the state as it was.
pub proof fn lemma_payment_is_pledged_or_handed_back(
    state: ContractState,
    token: Seq<char>,
    deposit: u128,
    sender: Seq<char>,
    amount: u128,
    msg: Seq<char>,
)
    requires
        transfer_outcome(state, token, deposit, sender, amount, msg) is Ok,
    ensures
        ({
            let (unused, next) = transfer_outcome(
                state,
                token,
                deposit,
                sender,
                amount,
                msg,
            ).unwrap();
            let creator = first_part(msg);
            ||| unused == amount && next == state
            ||| {
                &&& unused == 0
                &&& tier_of_message(msg) is Some
                &&& state.price_for(
                    creator,
                    tier_of_message(msg).unwrap(),
                    token,
                ) matches Ok(price) && price <= amount
                &&& state.user_funding_creator(
                    deposit,
                    sender,
                    creator,
                    tier_of_message(msg).unwrap(),
                    amount,
                    token,
                ) == Ok::<ContractState, MetaDaoError>(next)
            }
        }),
{
}

/// Taking in a payment leads from a well-run state to a well-run state,
/// and keeps every row of the ledger of every epoch.
pub proof fn lemma_payment_keeps_history(
    state: ContractState,
    token: Seq<char>,
    deposit: u128,
    sender: Seq<char>,
    amount: u128,
    msg: Seq<char>,
)
    requires
        state.well_run(),
        transfer_outcome(state, token, deposit, sender, amount, msg) is Ok,
    ensures
        transfer_outcome(state, token, deposit, sender, amount, msg).unwrap().1.well_run(),
        state.history_kept_in(
            transfer_outcome(state, token, deposit, sender, amount, msg).unwrap().1,
        ),
{
    let (unused, next) = transfer_outcome(state, token, deposit, sender, amount, msg).unwrap();
    lemma_payment_is_pledged_or_handed_back(state, token, deposit, sender, amount, msg);
    if next != state {
        lemma_pledge_keeps_history(
            state,
            deposit,
            sender,
            first_part(msg),
            tier_of_message(msg).unwrap(),
            amount,
            token,
        );
    }
}

} // verus!
