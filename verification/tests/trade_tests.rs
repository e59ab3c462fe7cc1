use copy_trading_bot::trade::{
    same_text, PoolType, TradeError, JUPITER_PROGRAM_ID, RAYDIUM_PROGRAM_ID,
};

#[test]
fn pool_names() {
    assert_eq!(PoolType::from_name("raydium"), Some(PoolType::Raydium));
    assert_eq!(PoolType::from_name("jupiter"), Some(PoolType::Jupiter));
    assert_eq!(PoolType::from_name("Raydium"), None);
    assert_eq!(PoolType::from_name("orca"), None);
    assert_eq!(PoolType::from_name(""), None);
    assert_eq!(PoolType::from_name("raydium "), None);
}

#[test]
fn program_ids() {
    assert_eq!(PoolType::Raydium.program_id(), RAYDIUM_PROGRAM_ID);
    assert_eq!(PoolType::Jupiter.program_id(), JUPITER_PROGRAM_ID);
    assert_eq!(RAYDIUM_PROGRAM_ID, "5quBzjrh1rKB7oRhxbEr7Tx6t8AH7z3maXJJu44HacKL");
    assert_eq!(JUPITER_PROGRAM_ID, "675kPX9MHTjS2zt1qfr1NYHuzeLXfQM9H24wFSUt1Mp8");
}

#[test]
fn text_comparison() {
    assert!(same_text("", ""));
    assert!(same_text("héllo", "héllo"));
    assert!(!same_text("abc", "abd"));
    assert!(!same_text("abc", "ab"));
}

#[test]
fn trade_error_messages() {
    assert_eq!(TradeError::InvalidMint.message(), "Invalid mint address");
    assert_eq!(TradeError::UnsupportedPool.message(), "Unsupported pool type");
}
