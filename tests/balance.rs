use account_balance::{push_decimal, Account, AccountError, Transaction};

fn account(id: &str, amounts: &[(&str, i64)]) -> Account {
    let transactions = amounts
        .iter()
        .map(|(tid, amount)| Transaction::new(tid.to_string(), *amount))
        .collect();
    Account::new(id.to_string(), transactions)
}

#[test]
fn should_calculate_balance() {
    let account = account("a1", &[("t1", -5000), ("t2", -464)]);
    match account.balance() {
        Ok(_) => unreachable!(),
        Err(AccountError::NegativeBalance(balance)) => assert_eq!(balance, -5464),
        Err(_) => unreachable!(),
    }
}

#[test]
fn raw_total_of_negative_account() {
    let account = account("a1", &[("t1", -5000), ("t2", -464)]);
    assert_eq!(account.total(), -5464);
    assert_eq!(account.checked_total(), Some(-5464));
}

#[test]
fn positive_total_and_summary_line() {
    let account = account("a1", &[("t1", 5000), ("t2", -464)]);
    assert_eq!(account.total(), 4536);
    assert!(matches!(account.balance(), Ok(4536)));
    assert_eq!(account.summary_line(account.total()), "Balance of account a1 is 4536");
}

#[test]
fn empty_account_has_zero_balance() {
    let account = account("empty", &[]);
    assert_eq!(account.total(), 0);
    assert!(matches!(account.balance(), Ok(0)));
    assert_eq!(account.summary_line(0), "Balance of account empty is 0");
}

#[test]
fn zero_balance_is_not_negative() {
    let account = account("z", &[("t1", 7), ("t2", -7)]);
    assert!(matches!(account.balance(), Ok(0)));
}

#[test]
fn balance_of_minus_one_is_refused() {
    let account = account("m", &[("t1", 1), ("t2", -2)]);
    assert!(matches!(account.balance(), Err(AccountError::NegativeBalance(-1))));
}

#[test]
fn reordering_keeps_the_balance() {
    let forward = account("p", &[("t1", 10), ("t2", -3), ("t3", 250), ("t4", -1000)]);
    let shuffled = account("p", &[("t3", 250), ("t1", 10), ("t4", -1000), ("t2", -3)]);
    assert_eq!(forward.total(), -743);
    assert_eq!(forward.total(), shuffled.total());
    assert!(matches!(forward.balance(), Err(AccountError::NegativeBalance(-743))));
    assert!(matches!(shuffled.balance(), Err(AccountError::NegativeBalance(-743))));
}

#[test]
fn intermediate_sums_may_leave_i64() {
    let account = account(
        "big",
        &[("t1", i64::MAX), ("t2", i64::MAX), ("t3", i64::MIN), ("t4", i64::MIN)],
    );
    assert_eq!(account.total(), -2);
    assert_eq!(account.checked_total(), Some(-2));
}

#[test]
fn checked_total_reports_overflow() {
    let high = account("h", &[("t1", i64::MAX), ("t2", 1)]);
    assert_eq!(high.checked_total(), None);
    let low = account("l", &[("t1", i64::MIN), ("t2", -1)]);
    assert_eq!(low.checked_total(), None);
    let edge = account("e", &[("t1", i64::MAX - 5), ("t2", 5)]);
    assert_eq!(edge.checked_total(), Some(i64::MAX));
}

#[test]
fn spent_line_reports_amount_and_id() {
    let tx = Transaction::new("t2".to_string(), -464);
    assert_eq!(tx.spent_line(), "Spent -464 credits on transaction t2");
    let tx = Transaction::new("t9".to_string(), 1234567890);
    assert_eq!(tx.spent_line(), "Spent 1234567890 credits on transaction t9");
}

#[test]
fn extreme_amounts_print_in_decimal() {
    let low = Transaction::new("min".to_string(), i64::MIN);
    assert_eq!(low.spent_line(), "Spent -9223372036854775808 credits on transaction min");
    let high = Transaction::new("max".to_string(), i64::MAX);
    assert_eq!(high.spent_line(), "Spent 9223372036854775807 credits on transaction max");
    let zero = Transaction::new("zero".to_string(), 0);
    assert_eq!(zero.spent_line(), "Spent 0 credits on transaction zero");
}

#[test]
fn negative_balance_message() {
    let err = AccountError::NegativeBalance(-5464);
    assert_eq!(err.description(), "Negative balance");
    assert_eq!(err.message(), "Negative balance of -5464 credits");
}

#[test]
fn io_error_message() {
    let io = std::io::Error::new(std::io::ErrorKind::NotFound, "no such file");
    let err = AccountError::from(io);
    assert!(matches!(err, AccountError::Io(_)));
    assert_eq!(err.description(), "I/O error");
    assert_eq!(err.message(), "I/O error: no such file");
}

#[test]
fn json_error_message() {
    let parse = serde_json::from_str::<serde_json::Value>("{\"id\": ").unwrap_err();
    let text = parse.to_string();
    let err = AccountError::from(parse);
    assert!(matches!(err, AccountError::Json(_)));
    assert_eq!(err.description(), "JSON error");
    assert_eq!(err.message(), format!("JSON error: {}", text));
}

#[test]
fn push_decimal_appends_to_existing_text() {
    let mut s = String::from("x=");
    push_decimal(&mut s, -10);
    assert_eq!(s, "x=-10");
    push_decimal(&mut s, 9);
    assert_eq!(s, "x=-109");
}
