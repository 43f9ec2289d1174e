use combo_lock::driver::new_lock_from_line;
use combo_lock::driver::set_combination_from_line;
use combo_lock::driver::unlock_from_line;
use combo_lock::lock::Combination;
use combo_lock::lock::Event;
use combo_lock::lock::Lock;
use combo_lock::lock::LockState;
use combo_lock::lock::Message;
use combo_lock::lock::Outcome;
use combo_lock::parse::ParseError;
use combo_lock::parse::parse_combo;
use combo_lock::parse::parse_i8;

fn line(tokens: &[&str]) -> Vec<String> {
    tokens.iter().map(|t| t.to_string()).collect()
}

#[test]
fn parse_i8_accepts_plain_numerals() {
    assert_eq!(parse_i8("0"), Some(0));
    assert_eq!(parse_i8("42"), Some(42));
    assert_eq!(parse_i8("007"), Some(7));
    assert_eq!(parse_i8("+5"), Some(5));
    assert_eq!(parse_i8("-0"), Some(0));
    assert_eq!(parse_i8("-17"), Some(-17));
}

#[test]
fn parse_i8_accepts_exactly_the_i8_range() {
    assert_eq!(parse_i8("127"), Some(127));
    assert_eq!(parse_i8("-128"), Some(-128));
    assert_eq!(parse_i8("128"), None);
    assert_eq!(parse_i8("-129"), None);
    assert_eq!(parse_i8("300"), None);
    assert_eq!(parse_i8("999999999999999999999999"), None);
    assert_eq!(parse_i8("-999999999999999999999999"), None);
}

#[test]
fn parse_i8_rejects_malformed_tokens() {
    assert_eq!(parse_i8(""), None);
    assert_eq!(parse_i8("-"), None);
    assert_eq!(parse_i8("+"), None);
    assert_eq!(parse_i8("abc"), None);
    assert_eq!(parse_i8("1a"), None);
    assert_eq!(parse_i8("a1"), None);
    assert_eq!(parse_i8("--1"), None);
    assert_eq!(parse_i8("+-1"), None);
    assert_eq!(parse_i8("1 2"), None);
    assert_eq!(parse_i8("1.5"), None);
}

#[test]
fn parse_combo_needs_three_value_tokens() {
    assert_eq!(parse_combo(&line(&["set"])), Err(ParseError::MissingValues));
    assert_eq!(parse_combo(&line(&["set", "1"])), Err(ParseError::MissingValues));
    assert_eq!(parse_combo(&line(&["set", "1", "2"])), Err(ParseError::MissingValues));
}

#[test]
fn parse_combo_needs_numeric_value_tokens() {
    assert_eq!(parse_combo(&line(&["set", "1", "2", "x"])), Err(ParseError::NotNumeric));
    assert_eq!(parse_combo(&line(&["set", "one", "2", "3"])), Err(ParseError::NotNumeric));
    assert_eq!(parse_combo(&line(&["set", "200", "1", "2"])), Err(ParseError::NotNumeric));
}

#[test]
fn parse_combo_reads_tokens_one_to_three() {
    assert_eq!(
        parse_combo(&line(&["set", "1", "2", "3"])),
        Ok(Combination { first: 1, second: 2, third: 3 })
    );
    assert_eq!(
        parse_combo(&line(&["unlock", "-128", "0", "127"])),
        Ok(Combination { first: -128, second: 0, third: 127 })
    );
    assert_eq!(
        parse_combo(&line(&["set", "1", "2", "3", "ignored"])),
        Ok(Combination { first: 1, second: 2, third: 3 })
    );
}

#[test]
fn parse_error_texts() {
    assert_eq!(ParseError::MissingValues.text().as_str(), "Three numeric values required");
    assert_eq!(ParseError::NotNumeric.text().as_str(), "All values must be numeric");
}

#[test]
fn combination_constructor_and_match() {
    let combo = Combination::new(1, 2, 3);
    assert_eq!(combo, Combination { first: 1, second: 2, third: 3 });
    assert!(combo.matches(Combination::new(1, 2, 3)));
    assert!(!combo.matches(Combination::new(3, 2, 1)));
}

#[test]
fn new_lock_from_line_uses_given_combination() {
    let mut lock = new_lock_from_line(&line(&["new", "4", "5", "6"]));
    assert_eq!(lock.state(), LockState::OpenUnlocked);
    lock.handle_event(Event::Close);
    lock.handle_event(Event::Lock);
    assert_eq!(lock.handle_event(Event::Unlock(4, 5, 6)), Outcome::Accepted(Message::Unlocked));
}

#[test]
fn new_lock_from_line_falls_back_to_zeros() {
    let mut lock = new_lock_from_line(&line(&["new"]));
    assert_eq!(lock.state(), LockState::OpenUnlocked);
    lock.handle_event(Event::Close);
    lock.handle_event(Event::Lock);
    assert_eq!(lock.handle_event(Event::Unlock(0, 0, 0)), Outcome::Accepted(Message::Unlocked));
}

#[test]
fn set_combination_from_line_forwards_the_event() {
    let mut lock = Lock::new(0, 0, 0);
    assert_eq!(
        set_combination_from_line(&mut lock, &line(&["set", "4", "5", "6"])),
        Ok(Outcome::Accepted(Message::CodeChanged))
    );
    lock.handle_event(Event::Close);
    assert_eq!(
        set_combination_from_line(&mut lock, &line(&["set", "7", "8", "9"])),
        Ok(Outcome::Rejected(Message::MustBeOpen))
    );
    lock.handle_event(Event::Lock);
    assert_eq!(lock.handle_event(Event::Unlock(4, 5, 6)), Outcome::Accepted(Message::Unlocked));
}

#[test]
fn set_combination_from_line_reports_parse_errors() {
    let mut lock = Lock::new(0, 0, 0);
    assert_eq!(
        set_combination_from_line(&mut lock, &line(&["set", "4", "5"])),
        Err(ParseError::MissingValues)
    );
    assert_eq!(
        set_combination_from_line(&mut lock, &line(&["set", "4", "5", "six"])),
        Err(ParseError::NotNumeric)
    );
    // The failed commands reached neither the state nor the combination.
    assert_eq!(lock.state(), LockState::OpenUnlocked);
    lock.handle_event(Event::Close);
    lock.handle_event(Event::Lock);
    assert_eq!(lock.handle_event(Event::Unlock(0, 0, 0)), Outcome::Accepted(Message::Unlocked));
}

#[test]
fn unlock_from_line_forwards_the_event() {
    let mut lock = Lock::new(1, 2, 3);
    lock.handle_event(Event::Close);
    lock.handle_event(Event::Lock);
    assert_eq!(
        unlock_from_line(&mut lock, &line(&["unlock", "1", "2", "4"])),
        Ok(Outcome::Rejected(Message::InvalidCombination))
    );
    assert_eq!(
        unlock_from_line(&mut lock, &line(&["unlock", "oops"])),
        Err(ParseError::MissingValues)
    );
    assert_eq!(lock.state(), LockState::ClosedLocked);
    assert_eq!(
        unlock_from_line(&mut lock, &line(&["unlock", "1", "2", "3"])),
        Ok(Outcome::Accepted(Message::Unlocked))
    );
    assert_eq!(lock.state(), LockState::ClosedUnlocked);
}
