use anchor_lang::error::Error;
use anchor_lang::prelude::{ProgramError, Pubkey};
use forge_solana::{
    authorize_mint, settle_burn, settle_create, settle_mint, CustomError, IssuanceError,
    SupplyChange, TokenConfig, TokenCreated, TokensBurned, TokensMinted,
};

fn key(seed: u8) -> Pubkey {
    Pubkey::new_from_array([seed; 32])
}

fn refusal(code: u32) -> Error {
    Error::from(ProgramError::Custom(code))
}

fn record(total_supply: u64) -> TokenConfig {
    TokenConfig {
        mint: key(1),
        owner: key(2),
        name: "Forge".to_string(),
        symbol: "FRG".to_string(),
        decimals: 6,
        total_supply,
        created_at: 1_700_000_000,
    }
}

#[test]
fn creation_with_initial_supply_1000_records_1000() {
    let created = settle_create(
        key(2),
        key(1),
        "Forge".to_string(),
        "FRG".to_string(),
        6,
        1000,
        1_700_000_000,
        Ok(()),
    );
    let expected_record = TokenConfig {
        mint: key(1),
        owner: key(2),
        name: "Forge".to_string(),
        symbol: "FRG".to_string(),
        decimals: 6,
        total_supply: 1000,
        created_at: 1_700_000_000,
    };
    let expected_event = TokenCreated {
        mint: key(1),
        owner: key(2),
        name: "Forge".to_string(),
        symbol: "FRG".to_string(),
        decimals: 6,
        initial_supply: 1000,
    };
    assert_eq!(created, Ok((expected_record, expected_event)));
}

#[test]
fn creation_whose_mint_failed_leaves_no_record() {
    let created = settle_create(
        key(2),
        key(1),
        "Forge".to_string(),
        "FRG".to_string(),
        6,
        1000,
        1_700_000_000,
        Err(refusal(17)),
    );
    assert_eq!(created, Err(IssuanceError::Ledger(refusal(17))));
}

#[test]
fn creation_without_initial_supply_does_not_look_at_the_ledger() {
    let created = settle_create(
        key(2),
        key(1),
        "Forge".to_string(),
        "FRG".to_string(),
        0,
        0,
        -5,
        Err(refusal(17)),
    );
    let (record, event) = created.unwrap();
    assert_eq!(record.total_supply, 0);
    assert_eq!(record.decimals, 0);
    assert_eq!(record.created_at, -5);
    assert_eq!(event.initial_supply, 0);
}

#[test]
fn creation_keeps_the_decimals_it_was_given() {
    let (record, event) = settle_create(
        key(2),
        key(1),
        "Forge".to_string(),
        "FRG".to_string(),
        9,
        1,
        0,
        Ok(()),
    )
    .unwrap();
    assert_eq!(record.decimals, 9);
    assert_eq!(event.decimals, 9);
}

#[test]
fn creation_refuses_malformed_parameters_whatever_the_ledger_said() {
    let long_name = "n".repeat(33);
    let long_symbol = "S".repeat(11);
    assert_eq!(
        settle_create(key(2), key(1), "Forge".to_string(), "FRG".to_string(), 10, 1000, 0, Ok(())),
        Err(IssuanceError::Custom(CustomError::InvalidDecimals))
    );
    assert_eq!(
        settle_create(key(2), key(1), long_name, "FRG".to_string(), 9, 1000, 0, Ok(())),
        Err(IssuanceError::Custom(CustomError::NameTooLong))
    );
    assert_eq!(
        settle_create(key(2), key(1), "Forge".to_string(), long_symbol, 9, 1000, 0, Err(refusal(1))),
        Err(IssuanceError::Custom(CustomError::SymbolTooLong))
    );
}

#[test]
fn owner_is_authorized_to_mint() {
    assert_eq!(authorize_mint(&record(0), &key(2)), Ok(()));
}

#[test]
fn anyone_else_is_not_authorized_to_mint() {
    assert_eq!(
        authorize_mint(&record(0), &key(3)),
        Err(CustomError::Unauthorized)
    );
    // the mint's own address is not the owner either
    assert_eq!(
        authorize_mint(&record(0), &key(1)),
        Err(CustomError::Unauthorized)
    );
    // one differing byte is enough
    let mut bytes = [2u8; 32];
    bytes[31] = 3;
    assert_eq!(
        authorize_mint(&record(0), &Pubkey::new_from_array(bytes)),
        Err(CustomError::Unauthorized)
    );
}

#[test]
fn counter_takes_a_mint_that_fits() {
    let mut token = record(40);
    assert_eq!(token.apply(SupplyChange::Mint { amount: 2 }), Ok(()));
    assert_eq!(token, record(42));
    let mut token = record(0);
    assert_eq!(token.apply(SupplyChange::Mint { amount: u64::MAX }), Ok(()));
    assert_eq!(token, record(u64::MAX));
}

#[test]
fn counter_refuses_a_mint_that_does_not_fit() {
    let mut token = record(u64::MAX);
    assert_eq!(
        token.apply(SupplyChange::Mint { amount: 1 }),
        Err(CustomError::Overflow)
    );
    assert_eq!(token, record(u64::MAX));
    let mut token = record(u64::MAX / 2 + 1);
    assert_eq!(
        token.apply(SupplyChange::Mint { amount: u64::MAX / 2 + 1 }),
        Err(CustomError::Overflow)
    );
    assert_eq!(token, record(u64::MAX / 2 + 1));
}

#[test]
fn counter_takes_a_burn_of_what_it_holds() {
    let mut token = record(42);
    assert_eq!(token.apply(SupplyChange::Burn { amount: 2 }), Ok(()));
    assert_eq!(token, record(40));
    assert_eq!(token.apply(SupplyChange::Burn { amount: 40 }), Ok(()));
    assert_eq!(token, record(0));
    assert_eq!(token.apply(SupplyChange::Burn { amount: 0 }), Ok(()));
    assert_eq!(token, record(0));
}

#[test]
fn counter_refuses_a_burn_of_more_than_it_holds() {
    let mut token = record(42);
    assert_eq!(
        token.apply(SupplyChange::Burn { amount: 43 }),
        Err(CustomError::Underflow)
    );
    assert_eq!(token, record(42));
    let mut token = record(0);
    assert_eq!(
        token.apply(SupplyChange::Burn { amount: u64::MAX }),
        Err(CustomError::Underflow)
    );
    assert_eq!(token, record(0));
}

#[test]
fn counter_judges_each_change_by_the_balance_it_meets() {
    // 5 - 6 + 10 would end at 9, but the burn comes first and is refused
    let mut token = record(5);
    assert_eq!(
        token.apply(SupplyChange::Burn { amount: 6 }),
        Err(CustomError::Underflow)
    );
    assert_eq!(token.apply(SupplyChange::Mint { amount: 10 }), Ok(()));
    assert_eq!(token.apply(SupplyChange::Burn { amount: 6 }), Ok(()));
    assert_eq!(token.total_supply, 5 + 10 - 6);
    // max + 1 - 1 would end at max, but the mint comes first and is refused
    let mut token = record(u64::MAX);
    assert_eq!(
        token.apply(SupplyChange::Mint { amount: 1 }),
        Err(CustomError::Overflow)
    );
    assert_eq!(token.apply(SupplyChange::Burn { amount: 1 }), Ok(()));
    assert_eq!(token.apply(SupplyChange::Mint { amount: 1 }), Ok(()));
    assert_eq!(token.total_supply, u64::MAX);
}

#[test]
fn mint_adds_the_amount() {
    let mut token = record(1000);
    let settled = settle_mint(&mut token, &key(2), key(1), key(4), 250, Ok(()));
    assert_eq!(
        settled,
        Ok(TokensMinted {
            mint: key(1),
            amount: 250,
            to: key(4),
        })
    );
    assert_eq!(token, record(1250));
}

#[test]
fn mint_of_nothing_succeeds_and_changes_nothing() {
    let mut token = record(u64::MAX);
    let settled = settle_mint(&mut token, &key(2), key(1), key(4), 0, Ok(()));
    assert_eq!(
        settled,
        Ok(TokensMinted {
            mint: key(1),
            amount: 0,
            to: key(4),
        })
    );
    assert_eq!(token, record(u64::MAX));
}

#[test]
fn mint_by_a_stranger_is_unauthorized_and_leaves_the_supply() {
    let mut token = record(1000);
    let settled = settle_mint(&mut token, &key(3), key(1), key(4), 250, Ok(()));
    assert_eq!(
        settled,
        Err(IssuanceError::Custom(CustomError::Unauthorized))
    );
    assert_eq!(token.total_supply, 1000);
    assert_eq!(token, record(1000));
}

#[test]
fn unauthorized_comes_before_a_ledger_failure_and_before_overflow() {
    let mut token = record(u64::MAX);
    let settled = settle_mint(&mut token, &key(3), key(1), key(4), 1, Err(refusal(9)));
    assert_eq!(
        settled,
        Err(IssuanceError::Custom(CustomError::Unauthorized))
    );
    let settled = settle_mint(&mut token, &key(3), key(1), key(4), 1, Ok(()));
    assert_eq!(
        settled,
        Err(IssuanceError::Custom(CustomError::Unauthorized))
    );
    assert_eq!(token, record(u64::MAX));
}

#[test]
fn mint_past_the_64_bit_range_overflows() {
    let mut token = record(u64::MAX - 9);
    let settled = settle_mint(&mut token, &key(2), key(1), key(4), 10, Ok(()));
    assert_eq!(settled, Err(IssuanceError::Custom(CustomError::Overflow)));
    assert_eq!(token, record(u64::MAX - 9));

    let mut token = record(1);
    let settled = settle_mint(&mut token, &key(2), key(1), key(4), u64::MAX, Ok(()));
    assert_eq!(settled, Err(IssuanceError::Custom(CustomError::Overflow)));
    assert_eq!(token, record(1));
}

#[test]
fn mint_up_to_the_64_bit_range_succeeds() {
    let mut token = record(u64::MAX - 9);
    let settled = settle_mint(&mut token, &key(2), key(1), key(4), 9, Ok(()));
    assert!(settled.is_ok());
    assert_eq!(token.total_supply, u64::MAX);
}

#[test]
fn mint_that_the_ledger_refused_leaves_the_record() {
    let mut token = record(1000);
    let settled = settle_mint(&mut token, &key(2), key(1), key(4), 250, Err(refusal(4)));
    assert_eq!(settled, Err(IssuanceError::Ledger(refusal(4))));
    assert_eq!(token, record(1000));
    // a ledger failure is reported even where the amount would not have fitted
    let mut token = record(u64::MAX);
    let settled = settle_mint(&mut token, &key(2), key(1), key(4), 1, Err(refusal(4)));
    assert_eq!(settled, Err(IssuanceError::Ledger(refusal(4))));
}

#[test]
fn burn_subtracts_the_amount() {
    let mut token = record(1000);
    let settled = settle_burn(&mut token, key(1), 400, Ok(()));
    assert_eq!(
        settled,
        Ok(TokensBurned {
            mint: key(1),
            amount: 400,
        })
    );
    assert_eq!(token, record(600));
}

#[test]
fn burn_of_the_whole_supply_leaves_zero() {
    let mut token = record(1000);
    assert!(settle_burn(&mut token, key(1), 1000, Ok(())).is_ok());
    assert_eq!(token.total_supply, 0);
}

#[test]
fn burn_of_more_than_the_supply_underflows() {
    let mut token = record(1000);
    let settled = settle_burn(&mut token, key(1), 1001, Ok(()));
    assert_eq!(settled, Err(IssuanceError::Custom(CustomError::Underflow)));
    assert_eq!(token, record(1000));

    let mut token = record(0);
    let settled = settle_burn(&mut token, key(1), 1, Ok(()));
    assert_eq!(settled, Err(IssuanceError::Custom(CustomError::Underflow)));
    assert_eq!(token, record(0));
}

#[test]
fn burn_that_the_ledger_refused_leaves_the_record() {
    let mut token = record(1000);
    let settled = settle_burn(&mut token, key(1), 400, Err(refusal(5)));
    assert_eq!(settled, Err(IssuanceError::Ledger(refusal(5))));
    assert_eq!(token, record(1000));
    let settled = settle_burn(&mut token, key(1), 4000, Err(refusal(5)));
    assert_eq!(settled, Err(IssuanceError::Ledger(refusal(5))));
    assert_eq!(token, record(1000));
}

#[test]
fn supply_is_initial_plus_minted_minus_burned() {
    let (mut token, _) = settle_create(
        key(2),
        key(1),
        "Forge".to_string(),
        "FRG".to_string(),
        6,
        1000,
        0,
        Ok(()),
    )
    .unwrap();
    let mints: [u64; 4] = [5, 0, 70_000, 12];
    let burns: [u64; 3] = [1000, 17, 0];
    for amount in mints {
        settle_mint(&mut token, &key(2), key(1), key(4), amount, Ok(())).unwrap();
    }
    for amount in burns {
        settle_burn(&mut token, key(1), amount, Ok(())).unwrap();
    }
    // failed operations in between count for nothing
    assert!(settle_mint(&mut token, &key(3), key(1), key(4), 99, Ok(())).is_err());
    assert!(settle_mint(&mut token, &key(2), key(1), key(4), 99, Err(refusal(1))).is_err());
    assert!(settle_burn(&mut token, key(1), u64::MAX, Ok(())).is_err());
    assert_eq!(token.total_supply, 1000 + (5 + 0 + 70_000 + 12) - (1000 + 17 + 0));
    assert_eq!(token.total_supply, 70_000);
}

#[test]
fn mint_and_burn_touch_only_the_counter() {
    let mut token = record(10);
    settle_mint(&mut token, &key(2), key(7), key(4), 5, Ok(())).unwrap();
    settle_burn(&mut token, key(8), 3, Ok(())).unwrap();
    assert_eq!(token.mint, key(1));
    assert_eq!(token.owner, key(2));
    assert_eq!(token.name, "Forge");
    assert_eq!(token.symbol, "FRG");
    assert_eq!(token.decimals, 6);
    assert_eq!(token.created_at, 1_700_000_000);
    assert_eq!(token.total_supply, 12);
}

#[test]
fn reading_twice_gives_the_same_values() {
    let token = record(1234);
    let first = token.clone();
    let second = token.clone();
    assert_eq!(first, second);
    assert_eq!(first, record(1234));
    assert_eq!(first.name, "Forge");
    assert_eq!(first.symbol, "FRG");
}

#[test]
fn reading_after_a_failed_operation_gives_the_same_values() {
    let mut token = record(1234);
    let before = token.clone();
    assert!(settle_mint(&mut token, &key(3), key(1), key(4), 1, Ok(())).is_err());
    assert!(settle_burn(&mut token, key(1), 2000, Ok(())).is_err());
    assert_eq!(token.clone(), before);
}
