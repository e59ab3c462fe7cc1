use copy_trading_bot::config::TelegramConfig;
use copy_trading_bot::telegram::TelegramService;

fn service(max: usize) -> TelegramService {
    TelegramService::new(TelegramConfig {
        command_prefix: "/".to_string(),
        message_timeout: 5000,
        max_subscribers: max,
    })
}

#[test]
fn subscribe_then_unsubscribe() {
    let mut s = service(10);
    assert_eq!(s.handle_subscribe(42), "Successfully subscribed to copy trading!");
    assert!(s.is_subscribed(42));
    assert_eq!(s.handle_unsubscribe(42), "Successfully unsubscribed from copy trading!");
    assert!(!s.is_subscribed(42));
    assert_eq!(s.subscriber_count(), 0);
}

#[test]
fn subscribing_twice_subscribes_once() {
    let mut s = service(10);
    s.handle_subscribe(7);
    assert_eq!(s.handle_subscribe(7), "You are already subscribed!");
    assert_eq!(s.subscriber_count(), 1);
}

#[test]
fn unsubscribing_a_stranger() {
    let mut s = service(10);
    s.handle_subscribe(1);
    assert_eq!(s.handle_unsubscribe(2), "You are not subscribed!");
    assert_eq!(s.subscriber_count(), 1);
    assert!(s.is_subscribed(1));
}

#[test]
fn full_service_refuses_even_a_subscriber() {
    let mut s = service(2);
    s.handle_subscribe(1);
    s.handle_subscribe(2);
    let full = "Maximum number of subscribers reached. Please try again later.";
    assert_eq!(s.handle_subscribe(3), full);
    assert_eq!(s.handle_subscribe(1), full);
    assert_eq!(s.subscriber_count(), 2);
    assert!(!s.is_subscribed(3));
}

#[test]
fn zero_capacity_accepts_no_one() {
    let mut s = service(0);
    assert_eq!(
        s.handle_subscribe(5),
        "Maximum number of subscribers reached. Please try again later."
    );
    assert_eq!(s.subscriber_count(), 0);
}

#[test]
fn notification_reaches_every_subscriber_once() {
    let mut s = service(100);
    for id in [5i64, -3, 17, 5, 99] {
        s.handle_subscribe(id);
    }
    let mut recipients = s.notify_subscribers();
    recipients.sort();
    assert_eq!(recipients, vec![-3, 5, 17, 99]);
    assert_eq!(s.message_timeout(), 5000);
}

#[test]
fn no_subscribers_no_notifications() {
    let s = service(3);
    assert!(s.notify_subscribers().is_empty());
}
