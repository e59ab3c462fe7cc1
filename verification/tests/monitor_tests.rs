use copy_trading_bot::monitor::{raydium_transaction_message, transaction_message, SignatureTracker};

fn strings(v: &[&str]) -> Vec<String> {
    v.iter().map(|s| s.to_string()).collect()
}

#[test]
fn transaction_notice() {
    assert_eq!(transaction_message("5xyz"), "🔄 New transaction detected\nSignature: 5xyz");
}

#[test]
fn raydium_notice_links_to_solscan() {
    assert_eq!(
        raydium_transaction_message("sig1"),
        "🔄 Raydium Transaction\nSignature: sig1\nView on Solscan: https://solscan.io/tx/sig1"
    );
}

#[test]
fn new_signatures_in_order() {
    let mut t = SignatureTracker::new();
    let fresh = t.select_new(&strings(&["a", "b", "c"]));
    assert_eq!(fresh, strings(&["a", "b", "c"]));
    let fresh = t.select_new(&strings(&["d", "b", "a", "e"]));
    assert_eq!(fresh, strings(&["d", "e"]));
    assert!(t.contains(&"e".to_string()));
    assert!(!t.contains(&"f".to_string()));
}

#[test]
fn same_batch_twice_yields_nothing() {
    let mut t = SignatureTracker::new();
    let batch = strings(&["x", "y"]);
    assert_eq!(t.select_new(&batch).len(), 2);
    assert!(t.select_new(&batch).is_empty());
}

#[test]
fn duplicates_in_a_batch_are_handled_once() {
    let mut t = SignatureTracker::new();
    let fresh = t.select_new(&strings(&["x", "x", "y", "x"]));
    assert_eq!(fresh, strings(&["x", "y"]));
}

#[test]
fn empty_batch() {
    let mut t = SignatureTracker::new();
    assert!(t.select_new(&Vec::new()).is_empty());
}
