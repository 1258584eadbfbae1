use audioshare_core::config::AppConfig;
use audioshare_core::controller::{
    device_notification_allowed, error_notification_allowed, on_quit_intent, resolve_ip_entry,
    resolve_port_entry, route_stop_reason, selection_change_restarts, should_auto_start,
    ErrorKind, LifecycleController, LifecyclePhase, PortDecision, ProbeIntent, QuitAction,
    StopRoute, ToggleAction,
};
use audioshare_core::events::ProcessStopReason;

fn config() -> AppConfig {
    AppConfig::with_defaults(
        String::from("192.168.0.2"),
        String::from("Speakers"),
        String::from("Default format"),
    )
}

#[test]
fn toggle_starts_when_nothing_is_live() {
    let mut ctl = LifecycleController::new();
    assert_eq!(ctl.on_toggle_intent(false), ToggleAction::ProceedStart);
    assert_eq!(ctl.phase, LifecyclePhase::Idle);
}

#[test]
fn toggle_is_refused_while_the_probe_runs() {
    let mut ctl = LifecycleController::new();
    assert_eq!(ctl.on_toggle_intent(true), ToggleAction::RejectProbeRunning);
    assert_eq!(ctl.phase, LifecyclePhase::Idle);
}

#[test]
fn toggle_stops_a_live_server() {
    let mut ctl = LifecycleController::new();
    ctl.begin_start();
    ctl.on_spawn_result(true);
    assert!(ctl.is_server_active());
    assert_eq!(ctl.on_toggle_intent(false), ToggleAction::StopServer);
    assert_eq!(ctl.phase, LifecyclePhase::Stopping);
    assert!(!ctl.is_server_active());
}

#[test]
fn spawn_failure_returns_to_idle() {
    let mut ctl = LifecycleController::new();
    ctl.begin_start();
    assert!(ctl.is_server_active());
    ctl.on_spawn_result(false);
    assert_eq!(ctl.phase, LifecyclePhase::Idle);
}

#[test]
fn terminal_reason_always_lands_in_idle() {
    let mut ctl = LifecycleController::new();
    ctl.begin_start();
    ctl.on_spawn_result(true);
    ctl.on_terminal_reason();
    assert_eq!(ctl.phase, LifecyclePhase::Idle);
}

#[test]
fn probe_intent_is_refused_while_the_server_runs() {
    let mut ctl = LifecycleController::new();
    ctl.begin_start();
    ctl.on_spawn_result(true);
    assert_eq!(ctl.on_probe_intent(false), ProbeIntent::RejectServerRunning);
}

#[test]
fn probe_intent_cancels_a_live_probe() {
    let ctl = LifecycleController::new();
    assert_eq!(ctl.on_probe_intent(true), ProbeIntent::StopProbe);
}

#[test]
fn probe_intent_starts_when_free() {
    let ctl = LifecycleController::new();
    assert_eq!(ctl.on_probe_intent(false), ProbeIntent::StartProbe);
}

#[test]
fn typed_port_wins() {
    assert_eq!(
        resolve_port_entry("5000", Some(&String::from("65530"))),
        PortDecision::UseTyped(5000)
    );
}

#[test]
fn junk_port_text_is_an_operator_error() {
    assert_eq!(
        resolve_port_entry("70000", Some(&String::from("65530"))),
        PortDecision::InvalidInput
    );
    assert_eq!(resolve_port_entry("abc", None), PortDecision::InvalidInput);
}

#[test]
fn empty_port_falls_back_to_the_placeholder() {
    assert_eq!(
        resolve_port_entry("", Some(&String::from("65530"))),
        PortDecision::UsePlaceholder(65530)
    );
}

#[test]
fn empty_port_without_placeholder_aborts() {
    assert_eq!(resolve_port_entry("", None), PortDecision::Abort);
    assert_eq!(
        resolve_port_entry("", Some(&String::from("nope"))),
        PortDecision::Abort
    );
}

#[test]
fn ip_entry_prefers_typed_text() {
    assert_eq!(
        resolve_ip_entry("10.0.0.1", Some(&String::from("192.168.0.2"))),
        "10.0.0.1"
    );
    assert_eq!(
        resolve_ip_entry("", Some(&String::from("192.168.0.2"))),
        "192.168.0.2"
    );
    assert_eq!(resolve_ip_entry("", None), "");
}

#[test]
fn clean_exit_persists_the_config() {
    assert_eq!(
        route_stop_reason(ProcessStopReason::ExitedSuccessfully),
        StopRoute::PersistConfig
    );
}

#[test]
fn faults_route_to_their_presentations() {
    assert_eq!(
        route_stop_reason(ProcessStopReason::InvalidArgument),
        StopRoute::PresentError(ErrorKind::InvalidAddress)
    );
    assert_eq!(
        route_stop_reason(ProcessStopReason::InvalidBinding),
        StopRoute::PresentError(ErrorKind::CannotAssignAddress)
    );
    assert_eq!(
        route_stop_reason(ProcessStopReason::FirewallBlocked),
        StopRoute::PresentError(ErrorKind::Other)
    );
    assert_eq!(
        route_stop_reason(ProcessStopReason::Resetting),
        StopRoute::PresentError(ErrorKind::Other)
    );
    assert_eq!(
        route_stop_reason(ProcessStopReason::ExitedWithError(Some(3))),
        StopRoute::PresentError(ErrorKind::Other)
    );
    assert_eq!(
        route_stop_reason(ProcessStopReason::FailedToKill),
        StopRoute::PresentError(ErrorKind::Other)
    );
}

#[test]
fn notification_gates_follow_the_config() {
    let mut cfg = config();
    assert!(error_notification_allowed(&cfg));
    cfg.notification_error = false;
    assert!(!error_notification_allowed(&cfg));
    assert!(device_notification_allowed(&cfg, true));
    assert!(!device_notification_allowed(&cfg, false));
    cfg.notification_device_disconnect = true;
    assert!(device_notification_allowed(&cfg, false));
}

#[test]
fn quit_minimizes_or_saves() {
    assert_eq!(on_quit_intent(true, true), QuitAction::Minimize);
    assert_eq!(
        on_quit_intent(false, true),
        QuitAction::SaveStopQuit { last_server_state: true }
    );
    assert_eq!(
        on_quit_intent(false, false),
        QuitAction::SaveStopQuit { last_server_state: false }
    );
}

#[test]
fn auto_start_follows_the_flags() {
    let mut cfg = config();
    assert!(!should_auto_start(&cfg));
    cfg.auto_start_server = true;
    assert!(should_auto_start(&cfg));
    cfg.auto_start_server = false;
    cfg.keep_last_state = true;
    assert!(!should_auto_start(&cfg));
    cfg.last_server_state = true;
    assert!(should_auto_start(&cfg));
}

#[test]
fn selection_change_restarts_only_a_live_server() {
    assert!(selection_change_restarts(true));
    assert!(!selection_change_restarts(false));
}
