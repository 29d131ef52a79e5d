use double_entry::authorizer::{Account, AccountError, AccountLog, Record, Transaction, NO_TIME};
use time::{Date, Month};

fn at(year: i32, month: Month, day: u8, hour: u8) -> i128 {
    Date::from_calendar_date(year, month, day)
        .unwrap()
        .with_hms(hour, 0, 0)
        .unwrap()
        .assume_utc()
        .unix_timestamp_nanos()
}

fn tx(merchant: &str, amount: u32, time: i128) -> Record {
    Record::Transaction(Transaction { merchant: merchant.to_string(), amount, time })
}

#[test]
fn test_accountlog_process() {
    let mut acclog = AccountLog::new();
    assert_eq!(
        acclog
            .process(Record::Account(Account {
                active_card: true,
                available_limit: 100,
            }))
            .expect("should not panic"),
        Account {
            active_card: true,
            available_limit: 100,
        }
    );

    assert_eq!(
        acclog
            .process(Record::Transaction(Transaction {
                merchant: "Burger King".to_string(),
                amount: 20,
                time: at(2019, Month::February, 13, 11),
            }))
            .expect("should not panic"),
        Account {
            active_card: true,
            available_limit: 80,
        }
    );
}

#[test]
fn the_time_of_no_transaction_is_the_first_day_of_year_one() {
    assert_eq!(NO_TIME, at(1, Month::January, 1, 0));
    assert_eq!(at(2019, Month::February, 13, 11), 1_550_055_600_000_000_000);
}

#[test]
fn a_transaction_before_the_account_is_refused() {
    let mut log = AccountLog::new();
    assert_eq!(log.process(tx("X", 1, 5)), Err(AccountError::NotInitialized));
    assert_eq!(log.len(), 0);
}

#[test]
fn an_account_is_opened_once() {
    let mut log = AccountLog::new();
    let account = Account { active_card: true, available_limit: 100 };
    assert_eq!(log.process(Record::Account(account)), Ok(account));
    assert_eq!(log.process(Record::Account(account)), Err(AccountError::AlreadyInitialized));
    assert_eq!(log.len(), 1);

    let mut log = AccountLog::new();
    let account = Account { active_card: false, available_limit: 100 };
    assert_eq!(log.process(Record::Account(account)), Ok(account));
    assert_eq!(log.process(Record::Account(account)), Err(AccountError::AlreadyInitialized));
    assert_eq!(log.len(), 1);
}

#[test]
fn an_inactive_card_takes_no_transaction() {
    let mut log = AccountLog::new();
    let account = Account { active_card: false, available_limit: 100 };
    assert_eq!(log.process(Record::Account(account)), Ok(account));
    assert_eq!(log.process(tx("X", 1, 5)), Err(AccountError::CardNotActive));
    assert_eq!(log.len(), 1);
}

#[test]
fn a_repeated_transaction_is_refused_before_the_limit_is_looked_at() {
    let mut log = AccountLog::new();
    let account = Account { active_card: true, available_limit: 100 };
    assert_eq!(log.process(Record::Account(account)), Ok(account));
    assert_eq!(log.process(tx("X", 60, 5)), Ok(Account { active_card: true, available_limit: 40 }));
    assert_eq!(log.process(tx("X", 60, 5)), Err(AccountError::DoubleTransaction));
    assert_eq!(log.process(tx("X", 60, 6)), Err(AccountError::InsufficientLimit));
    assert_eq!(log.process(tx("Y", 40, 5)), Ok(Account { active_card: true, available_limit: 0 }));
    assert_eq!(log.process(tx("Z", 0, 7)), Ok(Account { active_card: true, available_limit: 0 }));
    assert_eq!(log.process(tx("Z", 1, 8)), Err(AccountError::InsufficientLimit));
    assert_eq!(log.len(), 4);
}

#[test]
fn a_transaction_of_nothing_at_no_merchant_repeats_the_opening_line() {
    let mut log = AccountLog::new();
    let account = Account { active_card: true, available_limit: 100 };
    assert_eq!(log.process(Record::Account(account)), Ok(account));
    assert_eq!(log.process(tx("", 0, NO_TIME)), Err(AccountError::DoubleTransaction));
    assert_eq!(log.process(tx("", 0, 0)), Ok(account));
}

#[test]
fn transactions_compare_by_merchant_amount_and_time() {
    let a = Transaction { merchant: "X".to_string(), amount: 1, time: 2 };
    assert!(a.same_as(&Transaction { merchant: "X".to_string(), amount: 1, time: 2 }));
    assert!(!a.same_as(&Transaction { merchant: "Y".to_string(), amount: 1, time: 2 }));
    assert!(!a.same_as(&Transaction { merchant: "X".to_string(), amount: 2, time: 2 }));
    assert!(!a.same_as(&Transaction { merchant: "X".to_string(), amount: 1, time: 3 }));
}

#[test]
fn refusal_codes() {
    assert_eq!(AccountError::NotInitialized.code(), "account-not-initialized");
    assert_eq!(AccountError::InsufficientLimit.code(), "insufficient-limit");
    assert_eq!(AccountError::AlreadyInitialized.code(), "account-not-initialized");
    assert_eq!(AccountError::CardNotActive.code(), "card-not-active");
    assert_eq!(AccountError::DoubleTransaction.code(), "doubled-transaction");
}
