use metadao::account::AccountId;
use metadao::consts::{creator_registry_deposit, MIN_PLEDGE_DEPOSIT};
use metadao::epoch::Epoch;
use metadao::error::MetaDaoError;

#[test]
fn account_names_follow_the_naming_rule() {
    for name in ["aa", "a-a", "100", "b-o_w_e-n", "bro.wen", "illia.cheapaccounts.near", "wrap.near", "usn"] {
        let id = AccountId::try_from(name.to_string()).unwrap();
        assert_eq!(id.as_str(), name);
    }
    for name in ["a", "A", "Abc", "-near", "near-", "near.", ".near", "a..near", "a--b", "-/lj", "near@", ""] {
        assert!(AccountId::try_from(name.to_string()).is_err());
    }
    let longest = "a".repeat(64);
    assert!(AccountId::try_from(longest).is_ok());
    let too_long = "a".repeat(65);
    assert!(AccountId::try_from(too_long).is_err());
}

#[test]
fn deposits_have_their_exact_values() {
    assert_eq!(creator_registry_deposit(), 10_160_000_000_000_000_000_000u128);
    assert_eq!(MIN_PLEDGE_DEPOSIT, near_units::near::parse("0.01 N").unwrap());
}

#[test]
fn epochs_count_upwards() {
    let mut e = Epoch(0);
    assert_eq!(e.previous_epoch(), None);
    assert_eq!(e.next_epoch(), Epoch(1));
    e.update_epoch();
    assert_eq!(e.count(), 1);
    assert_eq!(e.previous_epoch(), Some(Epoch(0)));
}

#[test]
fn errors_have_their_texts() {
    assert_eq!(MetaDaoError::InvalidAdminCall.to_string(), "Invalid Admin call");
    assert_eq!(MetaDaoError::EpochIsOff.as_ref(), "Currently, epoch is off");
}
