use starter::accounts::Initialize;
use starter::address::Address;
use starter::declared_id;
use starter::logs::LogBuffer;
use starter::starter::{greeting_line, initialize, InvocationContext};

const DEPLOYED_ID_TEXT: &str = "3FJig81MorewpefvAyhEHJppLPDikSqnyQibGw7Cyf1B";

#[test]
fn initialize_with_empty_accounts_succeeds_and_logs_once() {
    let ctx = InvocationContext { program_id: declared_id(), accounts: Vec::new() };
    let mut log = LogBuffer::new();

    let result = initialize(&ctx, &mut log);

    assert!(result.is_ok());
    assert_eq!(log.line_count(), 1);
    assert!(log.line(0).contains(DEPLOYED_ID_TEXT));
    assert!(log.line(0).starts_with("Greetings from: "));
}

#[test]
fn initialize_with_non_empty_accounts_still_succeeds() {
    let extra = Address::from_bytes(vec![7u8; 32]).unwrap();
    let other = Address::from_bytes(vec![200u8; 32]).unwrap();
    let ctx = InvocationContext { program_id: declared_id(), accounts: vec![extra, other] };
    let mut log = LogBuffer::new();

    let result = initialize(&ctx, &mut log);

    assert!(result.is_ok());
    assert_eq!(log.line_count(), 1);
    assert!(log.line(0).contains(DEPLOYED_ID_TEXT));
}

#[test]
fn initialize_twice_succeeds_independently_with_no_drift() {
    let ctx = InvocationContext { program_id: declared_id(), accounts: Vec::new() };
    let mut log = LogBuffer::new();

    let first = initialize(&ctx, &mut log);
    let line_after_first = log.line(0).clone();
    let second = initialize(&ctx, &mut log);

    assert!(first.is_ok());
    assert!(second.is_ok());
    assert_eq!(log.line_count(), 2);
    assert_eq!(log.line(0), &line_after_first);
    assert_eq!(log.line(0), log.line(1));
}

#[test]
fn greeting_line_names_the_deployed_identifier() {
    let line = greeting_line(&declared_id());
    assert_eq!(line, format!("Greetings from: {}", DEPLOYED_ID_TEXT));
}

#[test]
fn to_base58_renders_the_all_zero_address_as_ones() {
    let zero = Address::from_bytes(vec![0u8; 32]).unwrap();
    assert_eq!(zero.to_base58(), "11111111111111111111111111111111");
}

#[test]
fn address_accepts_exactly_32_bytes() {
    assert!(Address::from_bytes(vec![1u8; 32]).is_some());
    assert!(Address::from_bytes(vec![1u8; 31]).is_none());
    assert!(Address::from_bytes(vec![1u8; 33]).is_none());
    assert!(Address::from_bytes(Vec::new()).is_none());
}

#[test]
fn descriptor_declares_zero_accounts_and_accepts_any_set() {
    assert_eq!(Initialize::required_account_count(), 0);
    assert!(Initialize::try_accounts(&Vec::new()).is_ok());
    let some = vec![Address::from_bytes(vec![9u8; 32]).unwrap()];
    assert!(Initialize::try_accounts(&some).is_ok());
}

#[test]
fn log_buffer_keeps_lines_in_emission_order() {
    let mut log = LogBuffer::new();
    assert_eq!(log.line_count(), 0);
    log.emit(String::from("first"));
    log.emit(String::from("second"));
    assert_eq!(log.line_count(), 2);
    assert_eq!(log.line(0).as_str(), "first");
    assert_eq!(log.line(1).as_str(), "second");
}
