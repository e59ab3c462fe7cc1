use copy_trading_bot::helpers::{
    format_error, format_error_message, format_transaction_url, has_solana_address_shape,
    is_base58, is_valid_solana_address, parse_address, AddressError, Backoff, RetryStep,
};

const SYSTEM_PROGRAM: &str = "11111111111111111111111111111111";
const WRAPPED_SOL: &str = "So11111111111111111111111111111111111111112";

#[test]
fn valid_addresses_are_accepted() {
    assert!(is_valid_solana_address(SYSTEM_PROGRAM));
    assert!(is_valid_solana_address(WRAPPED_SOL));
    assert!(is_valid_solana_address("5quBzjrh1rKB7oRhxbEr7Tx6t8AH7z3maXJJu44HacKL"));
}

#[test]
fn short_and_long_texts_are_refused() {
    assert!(!is_valid_solana_address(""));
    assert!(!is_valid_solana_address("abc"));
    assert!(!is_valid_solana_address("1111111111111111111111111111111"));
    let long: String = std::iter::repeat('2').take(45).collect();
    assert!(!is_valid_solana_address(&long));
}

#[test]
fn characters_outside_base58_are_refused() {
    for c in ['0', 'O', 'I', 'l', ' ', '+', '/', 'é'] {
        assert!(!is_base58(c));
    }
    for c in ['1', '9', 'A', 'H', 'J', 'N', 'P', 'Z', 'a', 'k', 'm', 'z'] {
        assert!(is_base58(c));
    }
    let with_zero = format!("0{}", &SYSTEM_PROGRAM[1..]);
    assert!(!has_solana_address_shape(&with_zero));
    assert!(!is_valid_solana_address(&with_zero));
    let with_newline = format!("{}\n", SYSTEM_PROGRAM);
    assert!(!is_valid_solana_address(&with_newline));
}

#[test]
fn shape_alone_is_not_enough() {
    // 44 base58 characters whose value does not fit in 32 bytes.
    let too_big: String = std::iter::repeat('z').take(44).collect();
    assert!(has_solana_address_shape(&too_big));
    assert!(!is_valid_solana_address(&too_big));
    assert_eq!(parse_address(&too_big), Err(AddressError::WrongSize));
}

#[test]
fn parse_address_gives_the_key_bytes() {
    assert_eq!(parse_address(SYSTEM_PROGRAM), Ok(vec![0u8; 32]));
    let key = parse_address(WRAPPED_SOL).unwrap();
    assert_eq!(key.len(), 32);
    assert_eq!(key[0], 6);
}

#[test]
fn parse_address_errors() {
    assert_eq!(parse_address("0OIl"), Err(AddressError::Invalid));
    let long: String = std::iter::repeat('2').take(45).collect();
    assert_eq!(parse_address(&long), Err(AddressError::WrongSize));
    assert_eq!(AddressError::WrongSize.message(), "String is the wrong size");
    assert_eq!(AddressError::Invalid.message(), "Invalid Base58 string");
}

#[test]
fn transaction_url_points_to_solscan() {
    assert_eq!(format_transaction_url("abc"), "https://solscan.io/tx/abc");
    assert_eq!(format_transaction_url(""), "https://solscan.io/tx/");
}

#[test]
fn errors_are_prefixed() {
    assert_eq!(format_error_message("boom"), "Error: boom");
    let error = anyhow::Error::msg("disk on fire");
    assert_eq!(format_error(&error), "Error: disk on fire");
}

#[test]
fn backoff_doubles_then_gives_up() {
    let mut backoff = Backoff::new(3, 100);
    assert_eq!(backoff.on_failure(), RetryStep::RetryAfter(100));
    assert_eq!(backoff.on_failure(), RetryStep::RetryAfter(200));
    assert_eq!(backoff.on_failure(), RetryStep::GiveUp);
    assert_eq!(backoff.attempts_left, 0);
}

#[test]
fn backoff_with_one_attempt_gives_up_at_once() {
    let mut backoff = Backoff::new(1, 1000);
    assert_eq!(backoff.on_failure(), RetryStep::GiveUp);
    assert_eq!(backoff.delay, 1000);
}

#[test]
fn backoff_schedule_is_powers_of_two() {
    let mut backoff = Backoff::new(6, 7);
    for k in 0..5u32 {
        assert_eq!(backoff.on_failure(), RetryStep::RetryAfter(7 * 2u64.pow(k)));
        assert_eq!(backoff.attempts_left, 5 - k);
    }
    assert_eq!(backoff.on_failure(), RetryStep::GiveUp);
}

#[test]
fn error_text_is_the_outer_message() {
    let error = anyhow::Error::msg("inner cause").context("outer message");
    assert_eq!(format_error(&error), "Error: outer message");
}
