use audioshare_core::channel::DeviceRecv;
use audioshare_core::events::{ProcessStopReason, ServerEndpointRequest};
use audioshare_core::supervisor::{AudioShareServerThread, StartAction};

fn request() -> ServerEndpointRequest {
    ServerEndpointRequest {
        bind_address: String::from("127.0.0.1"),
        bind_port: 5000,
        endpoint_id: 1,
        encoding_key: String::from("opus"),
    }
}

#[test]
fn fresh_supervisor_is_idle() {
    let sup = AudioShareServerThread::new();
    assert!(!sup.is_running());
}

#[test]
fn stop_without_a_run_is_a_noop() {
    let mut sup = AudioShareServerThread::new();
    let rx = sup.subscribe_stop_event();
    sup.stop();
    assert!(!sup.is_running());
    assert!(!rx.changed(&sup.stop_channel));
}

#[test]
fn start_builds_the_argument_contract() {
    let mut sup = AudioShareServerThread::new();
    match sup.start(&request(), true) {
        StartAction::Launch(args) => {
            assert_eq!(
                args,
                vec![
                    String::from("--bind=127.0.0.1:5000"),
                    String::from("-e"),
                    String::from("1"),
                    String::from("--encoding"),
                    String::from("opus"),
                ]
            );
        }
        _ => panic!("expected a launch"),
    }
    assert!(!sup.is_running());
}

#[test]
fn second_start_is_a_noop() {
    let mut sup = AudioShareServerThread::new();
    assert!(matches!(sup.start(&request(), true), StartAction::Launch(_)));
    sup.on_spawn_result(true);
    assert!(sup.is_running());
    assert!(matches!(sup.start(&request(), true), StartAction::AlreadyRunning));
    assert!(sup.is_running());
}

#[test]
fn refused_policy_publishes_firewall_blocked() {
    let mut sup = AudioShareServerThread::new();
    let mut rx = sup.subscribe_stop_event();
    assert!(matches!(sup.start(&request(), false), StartAction::Blocked));
    assert!(rx.changed(&sup.stop_channel));
    assert_eq!(
        rx.borrow_and_update(&sup.stop_channel),
        Some(ProcessStopReason::FirewallBlocked)
    );
    assert!(!sup.is_running());
}

#[test]
fn spawn_failure_stays_silent() {
    let mut sup = AudioShareServerThread::new();
    let rx = sup.subscribe_stop_event();
    assert!(matches!(sup.start(&request(), true), StartAction::Launch(_)));
    sup.on_spawn_result(false);
    assert!(!sup.is_running());
    assert!(!rx.changed(&sup.stop_channel));
}

#[test]
fn clean_run_publishes_exactly_exited_successfully() {
    let mut sup = AudioShareServerThread::new();
    let mut stop_rx = sup.subscribe_stop_event();
    let mut dev_rx = sup.subscribe_device_event();
    assert!(matches!(sup.start(&request(), true), StartAction::Launch(_)));
    sup.on_spawn_result(true);
    sup.on_stdout_line("[info] accept from 10.0.0.5:4000");
    sup.on_stdout_end();
    let lines = vec![String::from("[info] shutting down")];
    sup.run_stderr_task(&lines);
    match dev_rx.try_recv(&sup.device_channel) {
        DeviceRecv::Event(e) => {
            assert_eq!(e.peer_address, "10.0.0.5");
            assert!(e.connected);
        }
        other => panic!("expected a device event, got {:?}", other),
    }
    assert!(matches!(
        dev_rx.try_recv(&sup.device_channel),
        DeviceRecv::Empty
    ));
    assert!(stop_rx.changed(&sup.stop_channel));
    assert_eq!(
        stop_rx.borrow_and_update(&sup.stop_channel),
        Some(ProcessStopReason::ExitedSuccessfully)
    );
    assert!(!stop_rx.changed(&sup.stop_channel));
    assert!(!sup.is_running());
}

#[test]
fn bind_fault_run_publishes_invalid_binding() {
    let mut sup = AudioShareServerThread::new();
    let mut stop_rx = sup.subscribe_stop_event();
    assert!(matches!(sup.start(&request(), true), StartAction::Launch(_)));
    sup.on_spawn_result(true);
    let lines = vec![
        String::from("[info] starting"),
        String::from("bind: Cannot assign requested address"),
    ];
    sup.run_stderr_task(&lines);
    assert_eq!(
        stop_rx.borrow_and_update(&sup.stop_channel),
        Some(ProcessStopReason::InvalidBinding)
    );
    assert!(!sup.is_running());
}

#[test]
fn stdout_lines_publish_classified_events_only() {
    let mut sup = AudioShareServerThread::new();
    let mut dev_rx = sup.subscribe_device_event();
    sup.on_spawn_result(true);
    sup.on_stdout_line("[info] audio stream started");
    sup.on_stdout_line("[info] close from 10.0.0.5:4000");
    match dev_rx.try_recv(&sup.device_channel) {
        DeviceRecv::Event(e) => {
            assert_eq!(e.peer_address, "10.0.0.5");
            assert!(!e.connected);
        }
        other => panic!("expected a device event, got {:?}", other),
    }
    assert!(matches!(
        dev_rx.try_recv(&sup.device_channel),
        DeviceRecv::Empty
    ));
}

#[test]
fn whole_stdout_stream_publishes_every_event_in_order() {
    let mut sup = AudioShareServerThread::new();
    let mut dev_rx = sup.subscribe_device_event();
    sup.on_spawn_result(true);
    let lines = vec![
        String::from("[info] audio stream started"),
        String::from("[info] accept from 10.0.0.5:4000"),
        String::from("[info] accept from 10.0.0.6:4000"),
        String::from("[info] close from 10.0.0.5:4000"),
    ];
    sup.run_stdout_task(&lines);
    assert!(!sup.is_running());
    let expected = [("10.0.0.5", true), ("10.0.0.6", true), ("10.0.0.5", false)];
    for (ip, connected) in expected {
        match dev_rx.try_recv(&sup.device_channel) {
            DeviceRecv::Event(e) => {
                assert_eq!(e.peer_address, ip);
                assert_eq!(e.connected, connected);
            }
            other => panic!("expected an event, got {:?}", other),
        }
    }
    assert!(matches!(
        dev_rx.try_recv(&sup.device_channel),
        DeviceRecv::Empty
    ));
}

#[test]
fn stdout_end_clears_the_running_flag() {
    let mut sup = AudioShareServerThread::new();
    sup.on_spawn_result(true);
    assert!(sup.is_running());
    sup.on_stdout_end();
    assert!(!sup.is_running());
}

#[test]
fn reset_publishes_resetting() {
    let mut sup = AudioShareServerThread::new();
    let mut rx = sup.subscribe_stop_event();
    sup.on_spawn_result(true);
    sup.reset();
    assert_eq!(
        rx.borrow_and_update(&sup.stop_channel),
        Some(ProcessStopReason::Resetting)
    );
    assert!(!sup.is_running());
}

#[test]
fn stop_kills_without_publishing() {
    let mut sup = AudioShareServerThread::new();
    let rx = sup.subscribe_stop_event();
    sup.on_spawn_result(true);
    sup.stop();
    assert!(!sup.is_running());
    assert!(!rx.changed(&sup.stop_channel));
}
