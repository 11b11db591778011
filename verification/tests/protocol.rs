use metadao::account::AccountId;
use metadao::account_map::AccountMap;
use metadao::contract::MetaDaoContract;
use metadao::epoch::Epoch;
use metadao::nft::{
    CreatorNFTCopies, CreatorNFTDescription, CreatorNFTExtra, CreatorNFTMedia, CreatorNFTRanking,
    CreatorNFTReference, CreatorNFTTitle, UserNFTRank,
};
use metadao::registry::CreatorMetadata;
use metadao::account_set::AccountSet;
use metadao::consts::{
    creator_registry_deposit, ACCOUNT_ID_STORAGE_COST, CREATOR_REGISTRY_STORAGE_COST,
    FT_TRANSFER_DEPOSIT, GAS_FOR_FT_TRANSFER, MIN_PLEDGE_DEPOSIT, NFT_RANKING,
};
use metadao::epoch_map::EpochMap;
use metadao::error::MetaDaoError;
use metadao::ledger::{any_settled, checked_total, mark_settled, ObtainedTokenAmounts};
use metadao::text::{decimal_text, split_tag};
use metadao::token_receiver::parse_rank;

fn account(name: &str) -> AccountId {
    AccountId::try_from(name.to_string()).unwrap()
}

fn allowed_ft_accounts() -> Vec<AccountId> {
    vec![account("wrap.near"), account("usn")]
}

fn prices(token: &str, amount: u128) -> AccountMap<u128> {
    let mut table = AccountMap::new();
    table.insert(account(token), amount);
    table
}

fn registry_metadata(token: &str) -> CreatorMetadata {
    CreatorMetadata::new(
        vec![
            CreatorNFTRanking::Common(prices(token, 100_u128)),
            CreatorNFTRanking::Uncommon(prices(token, 250_u128)),
            CreatorNFTRanking::Rare(prices(token, 500_u128)),
        ],
        vec![
            CreatorNFTTitle::Common("common".to_string()),
            CreatorNFTTitle::Uncommon("uncommon".to_string()),
            CreatorNFTTitle::Rare("rare".to_string()),
        ],
        vec![
            CreatorNFTDescription::Common("common".to_string()),
            CreatorNFTDescription::Uncommon("uncommon".to_string()),
            CreatorNFTDescription::Rare("rare".to_string()),
        ],
        vec![
            CreatorNFTMedia::Common("media_common".to_string()),
            CreatorNFTMedia::Uncommon("media_uncommon".to_string()),
            CreatorNFTMedia::Rare("media_rare".to_string()),
        ],
        vec![
            CreatorNFTCopies::Common(100_u64),
            CreatorNFTCopies::Uncommon(50_u64),
            CreatorNFTCopies::Rare(5_u64),
        ],
        vec![
            CreatorNFTExtra::Common("extra_common".to_string()),
            CreatorNFTExtra::Uncommon("extra_uncommon".to_string()),
            CreatorNFTExtra::Rare("extra_rare".to_string()),
        ],
        vec![
            CreatorNFTReference::Common(None),
            CreatorNFTReference::Uncommon(None),
            CreatorNFTReference::Rare(None),
        ],
    )
    .unwrap()
}

fn admin() -> AccountId {
    account("admin.near")
}

fn opened() -> MetaDaoContract {
    let mut contract = MetaDaoContract::new(admin());
    contract.create_new_epoch(&admin(), Some(allowed_ft_accounts())).unwrap();
    contract
}

fn flags(contract: &MetaDaoContract) -> (bool, bool, bool) {
    (contract.is_epoch_on, contract.in_registration, contract.in_funding)
}

#[test]
fn an_epoch_goes_through_its_phases_in_order() {
    let mut contract = MetaDaoContract::new(admin());
    assert_eq!(flags(&contract), (false, false, false));
    // Nothing but opening an epoch works while none is open.
    assert_eq!(contract.set_registration(&admin()), Err(MetaDaoError::EpochIsOff));
    assert_eq!(contract.set_funding(&admin()), Err(MetaDaoError::EpochIsOff));
    assert_eq!(contract.end_epoch(&admin()), Err(MetaDaoError::EpochIsOff));

    contract.create_new_epoch(&admin(), Some(allowed_ft_accounts())).unwrap();
    assert_eq!(contract.epoch, Epoch(1));
    assert_eq!(flags(&contract), (true, false, false));
    // Funding cannot start before registration.
    assert_eq!(contract.set_funding(&admin()), Err(MetaDaoError::NotInRegistrationPeriod));
    assert_eq!(
        contract.create_new_epoch(&admin(), None),
        Err(MetaDaoError::UnableToCreateNewEpoch)
    );

    contract.set_registration(&admin()).unwrap();
    assert_eq!(flags(&contract), (true, true, false));
    assert_eq!(contract.set_registration(&admin()), Err(MetaDaoError::AlreadyInRegistration));
    assert_eq!(contract.end_epoch(&admin()), Err(MetaDaoError::AlreadyInRegistration));

    contract.set_funding(&admin()).unwrap();
    assert_eq!(flags(&contract), (true, false, true));
    assert_eq!(contract.set_registration(&admin()), Err(MetaDaoError::AlreadyInFunding));
    assert_eq!(contract.set_funding(&admin()), Err(MetaDaoError::AlreadyInFunding));
    // Closing is refused for as long as funding runs, and changes nothing.
    assert_eq!(contract.end_epoch(&admin()), Err(MetaDaoError::AlreadyInFunding));
    assert_eq!(flags(&contract), (true, false, true));
    assert_eq!(contract.epoch, Epoch(1));

    // Once funding is over, the epoch closes with every flag cleared.
    contract.in_funding = false;
    contract.end_epoch(&admin()).unwrap();
    assert_eq!(flags(&contract), (false, false, false));
    assert_eq!(contract.epoch, Epoch(1));
}

#[test]
fn a_new_epoch_takes_over_the_tokens_of_the_one_before() {
    let mut contract = opened();
    contract.end_epoch(&admin()).unwrap();
    contract.create_new_epoch(&admin(), None).unwrap();
    assert_eq!(contract.epoch, Epoch(2));
    assert!(contract.is_epoch_on);
    let tokens = contract.allowed_fungible_tokens_funding.get(&Epoch(2)).unwrap();
    assert_eq!(tokens.len(), 2);
    assert!(tokens.contains(&account("wrap.near")));
    assert!(tokens.contains(&account("usn")));
    assert!(!tokens.contains(&account("dai")));
    // The epoch before keeps what it had.
    assert_eq!(contract.allowed_fungible_tokens_funding.get(&Epoch(1)).unwrap().len(), 2);
    assert_eq!(contract.allowed_fungible_tokens_funding.len(), 2);
    assert!(contract.creator_funding.get(&Epoch(2)).unwrap().is_empty());
    assert!(contract.user_funds.get(&Epoch(2)).unwrap().is_empty());
    assert!(contract.creators_metadata.get(&Epoch(2)).unwrap().is_empty());
    assert!(contract.creators_per_epoch_set.get(&Epoch(2)).unwrap().is_empty());

    // With tokens of its own, the third epoch takes those.
    contract.end_epoch(&admin()).unwrap();
    contract.create_new_epoch(&admin(), Some(vec![account("dai"), account("dai")])).unwrap();
    let tokens = contract.allowed_fungible_tokens_funding.get(&Epoch(3)).unwrap();
    assert_eq!(tokens.len(), 1);
    assert!(tokens.contains(&account("dai")));
    let names: Vec<String> = tokens.to_vec().iter().map(|t| t.as_str().to_string()).collect();
    assert_eq!(names, vec!["dai".to_string()]);
}

#[test]
fn the_first_epoch_has_no_tokens_to_take_over() {
    let mut contract = MetaDaoContract::new(admin());
    assert_eq!(
        contract.create_new_epoch(&admin(), None),
        Err(MetaDaoError::InvalidCurrentEpoch)
    );
    // Refused, so nothing has changed.
    assert_eq!(contract.epoch, Epoch(0));
    assert!(!contract.is_epoch_on);
    assert!(contract.creator_funding.is_empty());
    assert!(contract.user_funds.is_empty());
    assert!(contract.creators_metadata.is_empty());
    assert!(contract.creators_per_epoch_set.is_empty());
    assert!(contract.allowed_fungible_tokens_funding.is_empty());
}

#[test]
fn each_refusal_of_a_pledge_has_its_cause() {
    let deposit = MIN_PLEDGE_DEPOSIT;
    let pledge = |contract: &mut MetaDaoContract, deposit: u128| {
        contract.user_funding_creator(
            deposit,
            account("bob"),
            account("alice"),
            UserNFTRank::Common,
            100,
            account("wrap.near"),
        )
    };
    let mut contract = opened();
    contract.set_registration(&admin()).unwrap();
    contract
        .creator_registration(&account("alice"), creator_registry_deposit(), registry_metadata("wrap.near"))
        .unwrap();
    assert_eq!(pledge(&mut contract, deposit), Err(MetaDaoError::NotInFundingPeriod));
    contract.set_funding(&admin()).unwrap();
    assert_eq!(pledge(&mut contract, deposit - 1), Err(MetaDaoError::UserDidNotAttachEnoughFunds));
    contract.is_epoch_on = false;
    assert_eq!(pledge(&mut contract, deposit), Err(MetaDaoError::EpochIsOff));
    contract.is_epoch_on = true;
    assert_eq!(
        contract.user_funding_creator(
            deposit,
            account("bob"),
            account("carol"),
            UserNFTRank::Common,
            100,
            account("wrap.near")
        ),
        Err(MetaDaoError::CreatorIsNotRegistered)
    );
    let ledger = contract.user_funds.remove(&Epoch(1)).unwrap();
    assert_eq!(pledge(&mut contract, deposit), Err(MetaDaoError::InvalidCurrentEpoch));
    assert_eq!(contract.creator_total_funds(account("alice")), Ok(0));
    contract.user_funds.insert(Epoch(1), ledger);
    assert_eq!(pledge(&mut contract, deposit), Ok(()));
    contract.epoch = Epoch(7);
    assert_eq!(pledge(&mut contract, deposit), Err(MetaDaoError::CreatorIsNotRegistered));
    assert_eq!(
        contract.creator_total_funds(account("alice")),
        Err(MetaDaoError::CreatorIsNotRegistered)
    );
    assert_eq!(
        contract.creator_total_funds_checked(&account("alice")),
        Err(MetaDaoError::CreatorIsNotRegistered)
    );
    assert!(!contract.has_any_settled(&account("alice")));
}

#[test]
fn each_pledge_adds_one_row_on_each_side() {
    let deposit = MIN_PLEDGE_DEPOSIT;
    let alice = account("alice");
    let dave = account("dave");
    let bob = account("bob");
    let mut contract = opened();
    contract.set_registration(&admin()).unwrap();
    for creator in [&alice, &dave] {
        contract
            .creator_registration(creator, creator_registry_deposit(), registry_metadata("wrap.near"))
            .unwrap();
    }
    contract.set_funding(&admin()).unwrap();
    let mut expected = 0u128;
    for (n, amount) in [100u128, 250, 7].iter().enumerate() {
        contract
            .user_funding_creator(deposit, bob.clone(), alice.clone(), UserNFTRank::Uncommon, *amount, account("usn"))
            .unwrap();
        expected += amount;
        assert_eq!(contract.creator_total_funds(alice.clone()), Ok(expected));
        assert_eq!(contract.creator_total_funds_checked(&alice), Ok(Some(expected)));
        let rows = contract.creator_funding.get(&Epoch(1)).unwrap().get(&alice).unwrap();
        assert_eq!(rows.len(), n + 1);
        assert_eq!(
            rows[n],
            ObtainedTokenAmounts {
                user_id: bob.clone(),
                ft_token_id: account("usn"),
                amount: *amount,
                nft_rank: UserNFTRank::Uncommon,
                already_funded: false,
            }
        );
        let spent = contract.user_funds.get(&Epoch(1)).unwrap().get(&bob).unwrap();
        assert_eq!(spent.len(), n + 1);
        assert_eq!(spent[n].creator_id, alice);
        assert_eq!(spent[n].ft_token_id, account("usn"));
        assert_eq!(spent[n].amount, *amount);
        // The other creator's side is untouched.
        assert_eq!(contract.creator_total_funds(dave.clone()), Ok(0));
        assert!(contract.creator_funding.get(&Epoch(1)).unwrap().get(&dave).unwrap().is_empty());
    }
    assert_eq!(expected, 357);
}

#[test]
fn totals_that_do_not_fit_are_told_apart() {
    let row = |amount: u128| ObtainedTokenAmounts {
        user_id: account("bob"),
        ft_token_id: account("usn"),
        amount,
        nft_rank: UserNFTRank::Rare,
        already_funded: false,
    };
    assert_eq!(checked_total(&vec![]), Some(0));
    assert_eq!(checked_total(&vec![row(1), row(2), row(3)]), Some(6));
    assert_eq!(checked_total(&vec![row(u128::MAX - 1), row(1)]), Some(u128::MAX));
    assert_eq!(checked_total(&vec![row(u128::MAX), row(1)]), None);
    assert_eq!(checked_total(&vec![row(1), row(u128::MAX), row(0)]), None);
}

#[test]
fn rows_are_marked_by_supporter() {
    let row = |user: &str, settled: bool| ObtainedTokenAmounts {
        user_id: account(user),
        ft_token_id: account("usn"),
        amount: 5,
        nft_rank: UserNFTRank::Rare,
        already_funded: settled,
    };
    let mut rows = vec![row("bob", false), row("carol", false), row("bob", true), row("dave", true)];
    assert!(any_settled(&rows));
    mark_settled(&mut rows, &account("bob"));
    assert_eq!(
        rows,
        vec![row("bob", true), row("carol", false), row("bob", true), row("dave", true)]
    );
    mark_settled(&mut rows, &account("erin"));
    assert_eq!(
        rows,
        vec![row("bob", true), row("carol", false), row("bob", true), row("dave", true)]
    );
    let mut none: Vec<ObtainedTokenAmounts> = vec![row("carol", false)];
    assert!(!any_settled(&none));
    mark_settled(&mut none, &account("bob"));
    assert!(!any_settled(&none));
    assert!(!any_settled(&vec![]));
}

#[test]
fn every_error_has_its_text() {
    let texts = [
        (MetaDaoError::InvalidAdminCall, "Invalid Admin call"),
        (
            MetaDaoError::UnableToCreateNewEpoch,
            "Unable to create a new epoch, while previous epoch is still ongoing",
        ),
        (MetaDaoError::CreatorIsNotRegistered, "Creator is not registered for current epoch"),
        (MetaDaoError::InvalidCurrentEpoch, "Invalid current epoch"),
        (MetaDaoError::EpochIsOff, "Currently, epoch is off"),
        (MetaDaoError::NotInFundingPeriod, "Not in funding period"),
        (
            MetaDaoError::UserDidNotAttachEnoughFunds,
            "User did not attach enough funds to contract call",
        ),
        (
            MetaDaoError::UserAlreadyRegisteredFundsToCreator,
            "User already registered funds to creator",
        ),
        (MetaDaoError::AlreadyInFunding, "Already in funding period"),
        (MetaDaoError::AlreadyInRegistration, "Already in Registration period"),
        (MetaDaoError::NotInRegistrationPeriod, "Not in Registration period"),
        (MetaDaoError::InvalidInitializationOfEpoch, "Invalid initialization of epoch"),
        (MetaDaoError::InvalidFTTokenId, "Invalid Fungible token id"),
        (MetaDaoError::UncoveredStorageCosts, "Uncovered storage costs"),
    ];
    for (error, text) in texts {
        assert_eq!(error.as_ref(), text);
        assert_eq!(error.to_string(), text);
    }
}

#[test]
fn the_fixed_quantities() {
    assert_eq!(NFT_RANKING, 3);
    assert_eq!(ACCOUNT_ID_STORAGE_COST, 8);
    assert_eq!(CREATOR_REGISTRY_STORAGE_COST, 1_016);
    assert_eq!(GAS_FOR_FT_TRANSFER, 20_000_000_000_000);
    assert_eq!(FT_TRANSFER_DEPOSIT, 1);
    assert_eq!(MIN_PLEDGE_DEPOSIT, 10u128.pow(22));
    assert_eq!(creator_registry_deposit(), 1_016 * 10u128.pow(19));
}

#[test]
fn numbers_are_written_in_decimal() {
    for n in [0u64, 7, 9, 10, 11, 99, 100, 101, 12_345, 1_000_000, u32::MAX as u64, u64::MAX] {
        assert_eq!(decimal_text(n), format!("{}", n));
    }
}

#[test]
fn tags_split_at_their_underscores() {
    assert_eq!(split_tag("alice_common"), ("alice", Some("common")));
    assert_eq!(split_tag("alice"), ("alice", None));
    assert_eq!(split_tag(""), ("", None));
    assert_eq!(split_tag("_"), ("", Some("")));
    assert_eq!(split_tag("alice_"), ("alice", Some("")));
    assert_eq!(split_tag("_common"), ("", Some("common")));
    assert_eq!(split_tag("a_b_c"), ("a", Some("b")));
    assert_eq!(split_tag("a__c"), ("a", Some("")));
    assert_eq!(split_tag("my_account.near_rare"), ("my", Some("account.near")));
    assert_eq!(split_tag("h\u{e9}llo_w\u{f6}rld_x"), ("h\u{e9}llo", Some("w\u{f6}rld")));
}

#[test]
fn tiers_are_named_in_lower_case() {
    assert_eq!(parse_rank("common"), Some(UserNFTRank::Common));
    assert_eq!(parse_rank("uncommon"), Some(UserNFTRank::Uncommon));
    assert_eq!(parse_rank("rare"), Some(UserNFTRank::Rare));
    for other in ["", "Common", "RARE", "rare ", "commons", "epic"] {
        assert_eq!(parse_rank(other), None);
    }
    assert_eq!(UserNFTRank::Common.name(), "common");
    assert_eq!(UserNFTRank::Uncommon.name(), "uncommon");
    assert_eq!(UserNFTRank::Rare.name(), "rare");
    assert_eq!(UserNFTRank::Common.position(), 0);
    assert_eq!(UserNFTRank::Uncommon.position(), 1);
    assert_eq!(UserNFTRank::Rare.position(), 2);
}

#[test]
fn maps_hold_one_value_for_each_key() {
    let mut map: AccountMap<u128> = AccountMap::new();
    assert!(map.is_empty());
    assert_eq!(map.len(), 0);
    assert_eq!(map.insert(account("alice"), 1), None);
    assert_eq!(map.insert(account("bob"), 2), None);
    assert_eq!(map.insert(account("carol"), 3), None);
    assert_eq!(map.insert(account("alice"), 10), Some(1));
    assert_eq!(map.len(), 3);
    assert_eq!(map.get(&account("alice")), Some(&10));
    assert_eq!(map.get(&account("bob")), Some(&2));
    assert_eq!(map.get(&account("dave")), None);
    assert!(map.contains_key(&account("carol")));
    assert_eq!(map.remove(&account("bob")), Some(2));
    assert_eq!(map.remove(&account("bob")), None);
    assert_eq!(map.len(), 2);
    assert!(!map.contains_key(&account("bob")));
    let copy = map.clone();
    let mut keys: Vec<String> = copy.keys().iter().map(|k| k.as_str().to_string()).collect();
    keys.sort();
    assert_eq!(keys, vec!["alice".to_string(), "carol".to_string()]);
    assert_eq!(copy.get(&account("carol")), Some(&3));

    let mut epochs: EpochMap<u8> = EpochMap::new();
    assert_eq!(epochs.insert(Epoch(2), 20), None);
    assert_eq!(epochs.insert(Epoch(1), 10), None);
    assert_eq!(epochs.insert(Epoch(2), 21), Some(20));
    assert_eq!(epochs.get(&Epoch(2)), Some(&21));
    assert_eq!(epochs.get(&Epoch(3)), None);
    let mut listed = epochs.keys();
    listed.sort_by_key(|e| e.count());
    assert_eq!(listed, vec![Epoch(1), Epoch(2)]);

    let mut set = AccountSet::new();
    assert!(set.is_empty());
    assert!(set.insert(&account("alice")));
    assert!(!set.insert(&account("alice")));
    assert!(set.insert(&account("bob")));
    assert_eq!(set.len(), 2);
    assert!(set.contains(&account("bob")));
    assert!(!set.contains(&account("carol")));
    assert_eq!(set.clone().len(), 2);
}
