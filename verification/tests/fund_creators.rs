use metadao::account::AccountId;
use metadao::account_map::AccountMap;
use metadao::contract::MetaDaoContract;
use metadao::epoch::Epoch;
use metadao::nft::{
    CreatorNFTCopies, CreatorNFTDescription, CreatorNFTExtra, CreatorNFTMedia, CreatorNFTRanking,
    CreatorNFTReference, CreatorNFTTitle, UserNFTRank,
};
use metadao::registry::CreatorMetadata;
use metadao::ledger::ObtainedTokenAmounts;
use metadao::state::{PromiseResult, SettlementError};

fn account(name: &str) -> AccountId {
    AccountId::try_from(name.to_string()).unwrap()
}

fn allowed_ft_accounts() -> Vec<AccountId> {
    vec![account("wrap.near"), account("usn")]
}

fn prices(token: &str, amount: u128) -> AccountMap<u128> {
    let mut table = AccountMap::new();
    table.insert(account(token), amount);
    table
}

fn registry_metadata(token: &str) -> CreatorMetadata {
    CreatorMetadata::new(
        vec![
            CreatorNFTRanking::Common(prices(token, 100_u128)),
            CreatorNFTRanking::Uncommon(prices(token, 250_u128)),
            CreatorNFTRanking::Rare(prices(token, 500_u128)),
        ],
        vec![
            CreatorNFTTitle::Common("common".to_string()),
            CreatorNFTTitle::Uncommon("uncommon".to_string()),
            CreatorNFTTitle::Rare("rare".to_string()),
        ],
        vec![
            CreatorNFTDescription::Common("common".to_string()),
            CreatorNFTDescription::Uncommon("uncommon".to_string()),
            CreatorNFTDescription::Rare("rare".to_string()),
        ],
        vec![
            CreatorNFTMedia::Common("media_common".to_string()),
            CreatorNFTMedia::Uncommon("media_uncommon".to_string()),
            CreatorNFTMedia::Rare("media_rare".to_string()),
        ],
        vec![
            CreatorNFTCopies::Common(100_u64),
            CreatorNFTCopies::Uncommon(50_u64),
            CreatorNFTCopies::Rare(5_u64),
        ],
        vec![
            CreatorNFTExtra::Common("extra_common".to_string()),
            CreatorNFTExtra::Uncommon("extra_uncommon".to_string()),
            CreatorNFTExtra::Rare("extra_rare".to_string()),
        ],
        vec![
            CreatorNFTReference::Common(None),
            CreatorNFTReference::Uncommon(None),
            CreatorNFTReference::Rare(None),
        ],
    )
    .unwrap()
}

/// The account that makes the calls of these tests.
fn caller() -> AccountId {
    account("bob")
}

fn storage() -> u128 {
    near_units::near::parse("0.1 N").unwrap()
}

/// A contract in funding, with `bob` as administrator and registered creator.
fn contract_in_funding() -> MetaDaoContract {
    let admin = account("bob");
    let mut contract = MetaDaoContract::new(admin.clone());
    contract
        .create_new_epoch(&caller(), Some(allowed_ft_accounts()))
        .unwrap();
    contract.set_registration(&caller()).unwrap();
    let metadata = registry_metadata("wrap.near");
    contract
        .creator_registration(&caller(), storage(), metadata)
        .unwrap();
    contract.set_funding(&caller()).unwrap();
    contract
}

fn unsettled_row(user_id: &AccountId) -> ObtainedTokenAmounts {
    ObtainedTokenAmounts {
        user_id: user_id.clone(),
        amount: 100_u128,
        nft_rank: UserNFTRank::Common,
        ft_token_id: account("wrap.near"),
        already_funded: false,
    }
}

fn put_rows(contract: &mut MetaDaoContract, creator: &AccountId, rows: Vec<ObtainedTokenAmounts>) {
    let epoch = contract.epoch;
    let mut creator_fundings = contract.creator_funding.remove(&epoch).unwrap();
    creator_fundings.insert(creator.clone(), rows);
    contract.creator_funding.insert(epoch, creator_fundings);
}

/// Books the outcomes, and aborts as the host does where they cannot be booked.
fn book(
    contract: &mut MetaDaoContract,
    promise_results: Vec<PromiseResult>,
    creator: &AccountId,
    user: &AccountId,
) {
    if let Some(fault) = contract.settlement_fault(&promise_results, creator) {
        panic!("{}", fault.as_ref());
    }
    contract.on_external_send_ft_tokens_callback(&promise_results, creator, user);
}

#[test]
fn test_on_external_send_ft_tokens_callback_works() {
    let mut contract = contract_in_funding();

    let user_id = account("user.near");
    let creator_account_id = account("bob");

    put_rows(&mut contract, &creator_account_id, vec![unsettled_row(&user_id)]);

    book(
        &mut contract,
        vec![PromiseResult::Successful(vec![0u8, 1, 2])],
        &creator_account_id,
        &user_id,
    );

    assert_eq!(
        *contract
            .creator_funding
            .get(&Epoch(1))
            .unwrap()
            .get(&creator_account_id)
            .unwrap(),
        vec![ObtainedTokenAmounts {
            amount: 100_u128,
            user_id,
            nft_rank: UserNFTRank::Common,
            ft_token_id: account("wrap.near"),
            already_funded: true,
        }]
    );
}

#[test]
#[should_panic(expected = "MetaDaoContract::external_send_ft_tokens::Promise failed")]
fn test_on_external_send_ft_tokens_callback_fails_if_not_successful_promise() {
    let mut contract = contract_in_funding();

    let user_id = account("user.near");
    let creator_account_id = account("bob");

    book(&mut contract, vec![PromiseResult::Failed], &creator_account_id, &user_id);
}

#[test]
#[should_panic(expected = "MetaDaoContract::external_send_ft_tokens::Promise failed")]
fn test_on_external_send_ft_tokens_callback_fails_if_not_successful_promise2() {
    let mut contract = contract_in_funding();

    let user_id = account("user.near");
    let creator_account_id = account("bob");

    book(&mut contract, vec![PromiseResult::NotReady], &creator_account_id, &user_id);
}

#[test]
#[should_panic(
    expected = "MetaDaoContract::external_send_ft_tokens::Invalid promise result count, one should only have one promise result"
)]
fn test_on_external_send_ft_tokens_callback_fails_if_more_than_one_promise() {
    let mut contract = contract_in_funding();

    let user_id = account("user.near");
    let creator_account_id = account("bob");

    book(
        &mut contract,
        vec![
            PromiseResult::Successful(vec![0_u8, 1, 2]),
            PromiseResult::Successful(vec![0_u8, 1]),
        ],
        &creator_account_id,
        &user_id,
    );
}

#[test]
#[should_panic(expected = "MetaDaoContract::external_send_ft_tokens::Invalid current epoch id")]
fn test_on_external_send_ft_tokens_callback_fails_if_epoch_is_invalid() {
    let mut contract = contract_in_funding();

    let user_id = account("user.near");
    let creator_account_id = account("bob");

    contract.epoch = Epoch(0);

    book(
        &mut contract,
        vec![PromiseResult::Successful(vec![0_u8, 1, 2])],
        &creator_account_id,
        &user_id,
    );
}

#[test]
#[should_panic(expected = "MetaDaoContract::external_send_ft_tokens::Creator is not registered")]
fn test_on_external_send_ft_tokens_callback_fails_if_creator_is_not_registered() {
    let mut contract = contract_in_funding();

    let user_id = account("user.near");
    let creator_account_id = account("creator.near");

    book(
        &mut contract,
        vec![PromiseResult::Successful(vec![0_u8, 1, 2])],
        &creator_account_id,
        &user_id,
    );
}

#[test]
fn a_confirmed_transfer_marks_the_rows_of_its_supporter_only() {
    let mut contract = contract_in_funding();
    let creator = account("bob");
    let user = account("user.near");
    let other = account("other.near");
    let mut rare = unsettled_row(&user);
    rare.amount = 500;
    rare.nft_rank = UserNFTRank::Rare;
    put_rows(
        &mut contract,
        &creator,
        vec![unsettled_row(&user), unsettled_row(&other), rare],
    );
    assert!(!contract.has_any_settled(&creator));
    assert_eq!(contract.creator_total_funds(creator.clone()), Ok(700));

    let success = vec![PromiseResult::Successful(vec![])];
    assert_eq!(contract.settlement_fault(&success, &creator), None);
    contract.on_external_send_ft_tokens_callback(&success, &creator, &user);
    let rows = contract.creator_funding.get(&Epoch(1)).unwrap().get(&creator).unwrap();
    let flags: Vec<bool> = rows.iter().map(|r| r.already_funded).collect();
    assert_eq!(flags, vec![true, false, true]);
    let amounts: Vec<u128> = rows.iter().map(|r| r.amount).collect();
    assert_eq!(amounts, vec![100, 100, 500]);
    assert_eq!(rows[2].nft_rank, UserNFTRank::Rare);
    assert_eq!(rows[1].user_id, other);
    assert!(contract.has_any_settled(&creator));
    assert_eq!(contract.creator_total_funds(creator.clone()), Ok(700));

    // Booking the same success again changes nothing.
    let before: Vec<ObtainedTokenAmounts> = rows.clone();
    assert_eq!(contract.settlement_fault(&success, &creator), None);
    contract.on_external_send_ft_tokens_callback(&success, &creator, &user);
    let rows = contract.creator_funding.get(&Epoch(1)).unwrap().get(&creator).unwrap();
    assert_eq!(*rows, before);
}

#[test]
fn a_failed_or_missing_outcome_is_a_defect_and_books_nothing() {
    let creator = account("bob");
    let user = account("user.near");
    let outcomes: Vec<(Vec<PromiseResult>, SettlementError)> = vec![
        (vec![], SettlementError::InvalidPromiseResultCount),
        (vec![PromiseResult::Failed], SettlementError::PromiseFailed),
        (vec![PromiseResult::NotReady], SettlementError::PromiseFailed),
        (
            vec![PromiseResult::Failed, PromiseResult::Successful(vec![])],
            SettlementError::InvalidPromiseResultCount,
        ),
        (
            vec![PromiseResult::Successful(vec![]), PromiseResult::Successful(vec![])],
            SettlementError::InvalidPromiseResultCount,
        ),
    ];
    for (results, expected) in outcomes {
        let mut contract = contract_in_funding();
        put_rows(&mut contract, &creator, vec![unsettled_row(&user)]);
        assert_eq!(contract.settlement_fault(&results, &creator), Some(expected));
        let rows = contract.creator_funding.get(&Epoch(1)).unwrap().get(&creator).unwrap();
        assert_eq!(*rows, vec![unsettled_row(&user)]);
        assert!(!contract.has_any_settled(&creator));
    }
}

#[test]
fn a_success_is_booked_only_for_a_creator_with_receipts() {
    let user = account("user.near");
    let success = vec![PromiseResult::Successful(vec![0, 1, 2])];
    let mut contract = contract_in_funding();
    assert_eq!(contract.settlement_fault(&success, &account("bob")), None);
    assert_eq!(
        contract.settlement_fault(&success, &account("creator.near")),
        Some(SettlementError::CreatorIsNotRegistered)
    );
    // No list was made for the creator that is not known.
    assert!(!contract
        .creator_funding
        .get(&Epoch(1))
        .unwrap()
        .contains_key(&account("creator.near")));
    // A creator without rows of that supporter: booked, and nothing to mark.
    contract.on_external_send_ft_tokens_callback(&success, &account("bob"), &user);
    assert!(contract
        .creator_funding
        .get(&Epoch(1))
        .unwrap()
        .get(&account("bob"))
        .unwrap()
        .is_empty());
    contract.epoch = Epoch(0);
    assert_eq!(
        contract.settlement_fault(&success, &account("bob")),
        Some(SettlementError::InvalidCurrentEpoch)
    );
    // The count is looked at first, then the outcome, then the ledger.
    assert_eq!(
        contract.settlement_fault(&vec![], &account("bob")),
        Some(SettlementError::InvalidPromiseResultCount)
    );
    assert_eq!(
        contract.settlement_fault(&vec![PromiseResult::Failed], &account("bob")),
        Some(SettlementError::PromiseFailed)
    );
}

#[test]
fn every_defect_of_a_settlement_has_its_text() {
    assert_eq!(
        SettlementError::InvalidPromiseResultCount.as_ref(),
        "MetaDaoContract::external_send_ft_tokens::Invalid promise result count, one should only have one promise result"
    );
    assert_eq!(
        SettlementError::PromiseFailed.as_ref(),
        "MetaDaoContract::external_send_ft_tokens::Promise failed"
    );
    assert_eq!(
        SettlementError::InvalidCurrentEpoch.as_ref(),
        "MetaDaoContract::external_send_ft_tokens::Invalid current epoch id"
    );
    assert_eq!(
        SettlementError::CreatorIsNotRegistered.as_ref(),
        "MetaDaoContract::external_send_ft_tokens::Creator is not registered"
    );
}

#[test]
fn a_settlement_is_sent_with_its_keys_and_books_nothing() {
    let contract = contract_in_funding();
    let pending = contract.external_send_ft_tokens(
        account("alice"),
        &account("bob"),
        account("wrap.near"),
        100,
    );
    assert_eq!(pending.creator_account_id, account("alice"));
    assert_eq!(pending.user_id, account("bob"));
    assert_eq!(pending.ft_account_id, account("wrap.near"));
    assert_eq!(pending.amount, 100);
    assert_eq!(pending.gas, 20_000_000_000_000u64);
    assert_eq!(pending.deposit, 1);
    assert!(!contract.has_any_settled(&account("alice")));
}

#[test]
fn settlement_of_a_pledge_from_dispatch_to_outcome() {
    // alice is the creator, bob the supporter.
    let admin = account("admin.near");
    let alice = account("alice");
    let bob = account("bob");
    let carol = account("carol");
    let wrap = account("wrap.near");
    let deposit = near_units::near::parse("0.01 N").unwrap();
    let mut contract = MetaDaoContract::new(admin.clone());
    contract.create_new_epoch(&admin, Some(allowed_ft_accounts())).unwrap();
    contract.set_registration(&admin).unwrap();
    contract
        .creator_registration(&alice, storage(), registry_metadata("wrap.near"))
        .unwrap();
    contract.set_funding(&admin).unwrap();
    contract
        .user_funding_creator(deposit, bob.clone(), alice.clone(), UserNFTRank::Common, 100, wrap.clone())
        .unwrap();
    contract
        .user_funding_creator(deposit, carol.clone(), alice.clone(), UserNFTRank::Common, 100, wrap.clone())
        .unwrap();

    let pending = contract.external_send_ft_tokens(alice.clone(), &bob, wrap.clone(), 100);

    // A failed outcome is a defect: it is not booked, the row stays
    // unsettled, and nothing else is touched.
    assert_eq!(
        contract.settlement_fault(&vec![PromiseResult::Failed], &pending.creator_account_id),
        Some(SettlementError::PromiseFailed)
    );
    let rows = contract.creator_funding.get(&Epoch(1)).unwrap().get(&alice).unwrap();
    assert_eq!(rows.len(), 2);
    assert!(!rows[0].already_funded && !rows[1].already_funded);

    // A single success: bob's row is settled, carol's is not.
    let success = vec![PromiseResult::Successful(vec![])];
    assert_eq!(contract.settlement_fault(&success, &pending.creator_account_id), None);
    contract.on_external_send_ft_tokens_callback(
        &success,
        &pending.creator_account_id,
        &pending.user_id,
    );
    let rows = contract.creator_funding.get(&Epoch(1)).unwrap().get(&alice).unwrap();
    assert_eq!(rows[0].user_id, bob);
    assert!(rows[0].already_funded);
    assert_eq!(rows[1].user_id, carol);
    assert!(!rows[1].already_funded);
    assert_eq!(contract.creator_total_funds(alice.clone()), Ok(200));
}
