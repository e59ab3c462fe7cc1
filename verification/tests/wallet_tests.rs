use copy_trading_bot::wallet::{WalletError, WalletErrorKind, WalletManager};
use base64::Engine;
use solana_sdk::signature::Keypair;
use solana_sdk::signer::Signer;

fn kind_of(r: Result<WalletManager, WalletError>) -> Option<WalletErrorKind> {
    r.err().map(|e| e.kind)
}

fn sample() -> Keypair {
    Keypair::new_from_array([7u8; 32])
}

#[test]
fn loads_from_base58() {
    let kp = sample();
    let text = bs58::encode(kp.to_bytes()).into_string();
    let wallet = WalletManager::new_from_base58(&text).unwrap();
    assert_eq!(wallet.public_key(), kp.pubkey().to_bytes().to_vec());
    assert_eq!(wallet.public_key_base58(), kp.pubkey().to_string());
    assert_eq!(wallet.keypair().pubkey(), kp.pubkey());
    assert_eq!(wallet.to_bytes(), kp.to_bytes().to_vec());
}

#[test]
fn loads_from_base64() {
    let kp = sample();
    let text = base64::engine::general_purpose::STANDARD.encode(kp.to_bytes());
    let wallet = WalletManager::new_from_base64(&text).unwrap();
    assert_eq!(wallet.public_key(), kp.pubkey().to_bytes().to_vec());
}

#[test]
fn loads_from_json() {
    let kp = sample();
    let json = serde_json::to_vec(&kp.to_bytes().to_vec()).unwrap();
    let wallet = WalletManager::new_from_json(&json).unwrap();
    assert_eq!(wallet.to_bytes(), kp.to_bytes().to_vec());
}

#[test]
fn secret_key_in_base58() {
    let kp = sample();
    let wallet = WalletManager::new_from_base58(&bs58::encode(kp.to_bytes()).into_string()).unwrap();
    assert_eq!(wallet.secret_key_base58(), bs58::encode([7u8; 32]).into_string());
}

#[test]
fn decoding_errors() {
    assert_eq!(kind_of(WalletManager::new_from_base58("0OIl")), Some(WalletErrorKind::InvalidBase58));
    assert_eq!(kind_of(WalletManager::new_from_base64("***")), Some(WalletErrorKind::InvalidBase64));
    assert_eq!(kind_of(WalletManager::new_from_json(b"not json")), Some(WalletErrorKind::InvalidJson));
}

#[test]
fn bytes_that_are_not_a_keypair() {
    // Right length, but the public half does not match the secret half.
    let zeros = bs58::encode([0u8; 64]).into_string();
    assert_eq!(kind_of(WalletManager::new_from_base58(&zeros)), Some(WalletErrorKind::InvalidKeypair));
    // Only the 32 secret bytes.
    let short = bs58::encode([7u8; 32]).into_string();
    assert_eq!(kind_of(WalletManager::new_from_base58(&short)), Some(WalletErrorKind::InvalidKeypair));
    let json = serde_json::to_vec(&vec![1u8, 2, 3]).unwrap();
    assert_eq!(kind_of(WalletManager::new_from_json(&json)), Some(WalletErrorKind::InvalidKeypair));
}

#[test]
fn error_messages() {
    let error = |kind| WalletError { kind, cause: String::new() };
    assert_eq!(error(WalletErrorKind::InvalidJson).message(), "Failed to parse wallet JSON");
    assert_eq!(
        error(WalletErrorKind::InvalidBase64).message(),
        "Failed to decode base64 private key"
    );
    assert_eq!(error(WalletErrorKind::InvalidBase58).message(), "Failed to decode base58 string");
    assert_eq!(
        error(WalletErrorKind::InvalidKeypair).message(),
        "Failed to create keypair from bytes"
    );
}

#[test]
fn errors_carry_the_cause() {
    let e = WalletManager::new_from_base58("0OIl").err().unwrap();
    assert_eq!(e.cause, bs58::decode("0OIl").into_vec().unwrap_err().to_string());
    let e = WalletManager::new_from_json(b"not json").err().unwrap();
    assert_eq!(
        e.cause,
        serde_json::from_slice::<Vec<u8>>(b"not json").unwrap_err().to_string()
    );
    let short = bs58::encode([7u8; 32]).into_string();
    let e = WalletManager::new_from_base58(&short).err().unwrap();
    assert!(!e.cause.is_empty());
}

#[test]
fn clone_keeps_the_keypair() {
    let kp = sample();
    let wallet = WalletManager::new_from_base58(&bs58::encode(kp.to_bytes()).into_string()).unwrap();
    let copy = wallet.clone();
    assert_eq!(copy.to_bytes(), wallet.to_bytes());
    assert_eq!(copy.keypair().pubkey(), kp.pubkey());
}

#[test]
fn public_key_text_is_a_valid_address() {
    let kp = sample();
    let wallet = WalletManager::new_from_base58(&bs58::encode(kp.to_bytes()).into_string()).unwrap();
    let text = wallet.public_key_base58();
    assert!(copy_trading_bot::helpers::is_valid_solana_address(&text));
    assert_eq!(copy_trading_bot::helpers::parse_address(&text), Ok(wallet.public_key()));
}

#[test]
fn secret_key_text_does_not_load_a_wallet() {
    let kp = sample();
    let wallet = WalletManager::new_from_base58(&bs58::encode(kp.to_bytes()).into_string()).unwrap();
    let text = wallet.secret_key_base58();
    assert_eq!(bs58::decode(&text).into_vec().unwrap(), vec![7u8; 32]);
    assert_eq!(kind_of(WalletManager::new_from_base58(&text)), Some(WalletErrorKind::InvalidKeypair));
}

#[test]
fn keypair_bytes_are_the_wallet_bytes() {
    let kp = sample();
    let wallet = WalletManager::new_from_base64(
        &base64::engine::general_purpose::STANDARD.encode(kp.to_bytes()),
    )
    .unwrap();
    assert_eq!(wallet.keypair().to_bytes(), kp.to_bytes());
    assert_eq!(wallet.keypair().to_bytes().to_vec(), wallet.to_bytes());
}
