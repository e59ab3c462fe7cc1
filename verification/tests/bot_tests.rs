use copy_trading_bot::bot::{
    handle_address, handle_command, is_address_message, AddressAction, Command, CommandAction,
    MonitorRegistry,
};
use copy_trading_bot::helpers::AddressError;

const WELCOME: &str = "Welcome to Solana Copy Trading Bot! 🚀\nAvailable commands:\n/start - Show this help message\n/stop - Stop monitoring\n/status - Check status\n/balance - Check balance\n/subscribe - Subscribe to notifications\n/unsubscribe - Unsubscribe from notifications\n/trader - View Raydium transactions";

#[test]
fn start_shows_help() {
    match handle_command(Command::Start) {
        CommandAction::Reply(text) => assert_eq!(text, WELCOME),
        other => panic!("unexpected {:?}", other),
    }
}

#[test]
fn trader_asks_for_an_address() {
    match handle_command(Command::Trader) {
        CommandAction::Reply(text) => assert_eq!(text, "Please enter a Solana address to monitor"),
        other => panic!("unexpected {:?}", other),
    }
}

#[test]
fn other_commands_map_to_actions() {
    assert!(matches!(handle_command(Command::Stop), CommandAction::StopMonitoring));
    assert!(matches!(handle_command(Command::Status), CommandAction::CheckStatus));
    assert!(matches!(handle_command(Command::Balance), CommandAction::CheckBalance));
    assert!(matches!(handle_command(Command::Subscribe), CommandAction::Subscribe));
    assert!(matches!(handle_command(Command::Unsubscribe), CommandAction::Unsubscribe));
}

#[test]
fn plain_text_goes_to_the_address_handler() {
    assert!(is_address_message(Some("hello")));
    assert!(is_address_message(Some("")));
    assert!(!is_address_message(Some("/start")));
    assert!(!is_address_message(Some("/")));
    assert!(!is_address_message(None));
}

#[test]
fn address_messages() {
    assert!(matches!(handle_address(None), AddressAction::Ignore));
    assert!(matches!(
        handle_address(Some("11111111111111111111111111111111")),
        AddressAction::StartMonitoring
    ));
    match handle_address(Some("not an address")) {
        AddressAction::Reply(text) => assert_eq!(text, "Invalid Solana address format"),
        other => panic!("unexpected {:?}", other),
    }
}

#[test]
fn start_status_stop() {
    let mut registry: MonitorRegistry<u32> = MonitorRegistry::new();
    assert_eq!(registry.check_status(1), "No active monitoring");
    assert_eq!(registry.take_monitor(1), None);
    let (replaced, reply) = registry.record_start(1, "AddrOne", Ok(10));
    assert_eq!(replaced, None);
    assert_eq!(reply, "Started monitoring address: AddrOne");
    assert_eq!(registry.check_status(1), "Active monitoring in progress");
    assert_eq!(registry.check_status(2), "No active monitoring");
    assert_eq!(registry.stop_monitoring(1), (Some(10), "Stopped monitoring".to_string()));
    assert_eq!(registry.check_status(1), "No active monitoring");
    assert_eq!(registry.stop_monitoring(1), (None, "No active monitoring to stop".to_string()));
}

#[test]
fn restart_hands_back_the_old_monitor() {
    let mut registry: MonitorRegistry<u32> = MonitorRegistry::new();
    registry.record_start(1, "A", Ok(10));
    registry.record_start(2, "B", Ok(20));
    assert_eq!(registry.take_monitor(1), Some(10));
    registry.record_start(1, "C", Ok(11));
    assert_eq!(registry.stop_monitoring(1).0, Some(11));
    assert!(registry.is_monitoring(2));
    assert_eq!(registry.stop_monitoring(2).0, Some(20));
}

#[test]
fn failed_start_reports_the_error() {
    let mut registry: MonitorRegistry<u32> = MonitorRegistry::new();
    registry.record_start(1, "A", Ok(10));
    assert_eq!(registry.take_monitor(1), Some(10));
    let (replaced, reply) = registry.record_start(1, "bad", Err(AddressError::Invalid));
    assert_eq!(replaced, None);
    assert_eq!(reply, "Error starting monitoring: Invalid Base58 string");
    assert!(!registry.is_monitoring(1));
    let (_, reply) = registry.record_start(3, "x", Err(AddressError::WrongSize));
    assert_eq!(reply, "Error starting monitoring: String is the wrong size");
}

#[test]
fn accepted_addresses_always_decode() {
    for address in [
        "11111111111111111111111111111111",
        "So11111111111111111111111111111111111111112",
        "675kPX9MHTjS2zt1qfr1NYHuzeLXfQM9H24wFSUt1Mp8",
    ] {
        assert!(matches!(handle_address(Some(address)), AddressAction::StartMonitoring));
        assert!(copy_trading_bot::helpers::parse_address(address).is_ok());
    }
}

#[test]
fn recording_over_a_running_monitor_hands_it_back() {
    let mut registry: MonitorRegistry<u32> = MonitorRegistry::new();
    registry.record_start(5, "A", Ok(1));
    let (replaced, _) = registry.record_start(5, "B", Ok(2));
    assert_eq!(replaced, Some(1));
    assert_eq!(registry.stop_monitoring(5).0, Some(2));
    registry.record_start(6, "C", Ok(3));
    let (replaced, _) = registry.record_start(6, "D", Err(AddressError::Invalid));
    assert_eq!(replaced, None);
    assert!(registry.is_monitoring(6));
}
