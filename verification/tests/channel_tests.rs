use audioshare_core::channel::{
    DeviceChannel, DeviceRecv, ResultChannel, ResultRecv, StopChannel,
};
use audioshare_core::events::{DeviceConnectionEvent, ProcessStopReason};

#[test]
fn stop_channel_starts_empty_and_unchanged() {
    let ch = StopChannel::new();
    let rx = ch.subscribe();
    assert!(!rx.changed(&ch));
}

#[test]
fn stop_channel_publish_is_seen_once() {
    let mut ch = StopChannel::new();
    let mut rx = ch.subscribe();
    ch.publish(ProcessStopReason::Resetting);
    assert!(rx.changed(&ch));
    assert_eq!(rx.borrow_and_update(&ch), Some(ProcessStopReason::Resetting));
    assert!(!rx.changed(&ch));
}

#[test]
fn stop_channel_latest_value_wins() {
    let mut ch = StopChannel::new();
    let mut rx = ch.subscribe();
    ch.publish(ProcessStopReason::InvalidBinding);
    ch.publish(ProcessStopReason::ExitedSuccessfully);
    assert_eq!(
        rx.borrow_and_update(&ch),
        Some(ProcessStopReason::ExitedSuccessfully)
    );
}

#[test]
fn stop_channel_late_subscriber_sees_no_change_but_the_value() {
    let mut ch = StopChannel::new();
    ch.publish(ProcessStopReason::ExitedSuccessfully);
    let mut rx = ch.subscribe();
    assert!(!rx.changed(&ch));
    assert_eq!(
        rx.borrow_and_update(&ch),
        Some(ProcessStopReason::ExitedSuccessfully)
    );
}

fn ev(ip: &str, connected: bool) -> DeviceConnectionEvent {
    DeviceConnectionEvent {
        peer_address: String::from(ip),
        connected,
    }
}

#[test]
fn device_channel_delivers_in_order() {
    let mut ch = DeviceChannel::new();
    let mut rx = ch.subscribe();
    ch.publish(ev("10.0.0.5", true));
    ch.publish(ev("10.0.0.5", false));
    match rx.try_recv(&ch) {
        DeviceRecv::Event(e) => {
            assert_eq!(e.peer_address, "10.0.0.5");
            assert!(e.connected);
        }
        other => panic!("expected an event, got {:?}", other),
    }
    match rx.try_recv(&ch) {
        DeviceRecv::Event(e) => assert!(!e.connected),
        other => panic!("expected an event, got {:?}", other),
    }
    assert!(matches!(rx.try_recv(&ch), DeviceRecv::Empty));
}

#[test]
fn device_channel_subscriber_misses_earlier_events() {
    let mut ch = DeviceChannel::new();
    ch.publish(ev("10.0.0.5", true));
    let mut rx = ch.subscribe();
    assert!(matches!(rx.try_recv(&ch), DeviceRecv::Empty));
}

#[test]
fn device_channel_lag_loses_the_oldest() {
    let mut ch = DeviceChannel::new();
    let mut rx = ch.subscribe();
    for i in 0..20 {
        ch.publish(ev(&format!("10.0.0.{}", i), true));
    }
    match rx.try_recv(&ch) {
        DeviceRecv::Lagged(n) => assert_eq!(n, 4),
        other => panic!("expected a lag, got {:?}", other),
    }
    match rx.try_recv(&ch) {
        DeviceRecv::Event(e) => assert_eq!(e.peer_address, "10.0.0.4"),
        other => panic!("expected an event, got {:?}", other),
    }
}

#[test]
fn result_channel_delivers_outcomes() {
    let mut ch = ResultChannel::new();
    let mut rx = ch.subscribe();
    ch.publish(true);
    ch.publish(false);
    assert!(matches!(rx.try_recv(&ch), ResultRecv::Value(true)));
    assert!(matches!(rx.try_recv(&ch), ResultRecv::Value(false)));
    assert!(matches!(rx.try_recv(&ch), ResultRecv::Empty));
}
