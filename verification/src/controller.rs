//! The application-level orchestration logic: a thin state machine that
//! sequences supervisor and probe operations, enforces the business rule
//! that the server and the probe never run at once, and decides — per stop
//! reason and per configuration flag — what is persisted and what is
//! presented. It owns no process or socket resource itself.

use vstd::prelude::*;
use vstd::string::*;

use crate::config::AppConfig;
use crate::events::ProcessStopReason;
use crate::strutil::{parse_u16, parse_u16_spec};

verus! {

/// Where a server run stands, from the caller's point of view.
#[derive(Clone, Copy, PartialEq, Eq, Structural, Debug)]
pub enum LifecyclePhase {
    Idle,
    Starting,
    Running,
    Stopping,
}

/// What a toggle intent resolves to.
#[derive(Clone, Copy, PartialEq, Eq, Structural, Debug)]
pub enum ToggleAction {
    /// The server is live: stop it.
    StopServer,
    /// The probe is live: starting the server is refused, with a
    /// domain-specific rejection rather than silent queuing.
    RejectProbeRunning,
    /// Nothing is in the way: validate the entries and start the server.
    ProceedStart,
}

/// What the port entry of the start form resolves to.
#[derive(Clone, Copy, PartialEq, Eq, Structural, Debug)]
pub enum PortDecision {
    /// The typed text is a valid port.
    UseTyped(u16),
    /// The typed text is non-empty and not a valid port: reject the intent
    /// and tell the operator.
    InvalidInput,
    /// The entry is empty and the placeholder is a valid port: adopt it.
    UsePlaceholder(u16),
    /// The entry is empty and no usable placeholder exists: abandon the
    /// intent silently.
    Abort,
}

/// What a probe intent resolves to.
#[derive(Clone, Copy, PartialEq, Eq, Structural, Debug)]
pub enum ProbeIntent {
    /// The server is live: the probe is refused and the operator told.
    RejectServerRunning,
    /// A probe is live: this intent cancels it.
    StopProbe,
    /// Nothing is in the way: start the probe.
    StartProbe,
}

/// Which notification a terminal fault maps to.
#[derive(Clone, Copy, PartialEq, Eq, Structural, Debug)]
pub enum ErrorKind {
    /// `InvalidArgument`: the address is not usable.
    InvalidAddress,
    /// `InvalidBinding`: the requested address cannot be assigned.
    CannotAssignAddress,
    /// Any other non-success reason; no dedicated message exists.
    Other,
}

/// What a published stop reason means to the caller.
#[derive(Clone, Copy, PartialEq, Eq, Structural, Debug)]
pub enum StopRoute {
    /// A clean exit: persist the current runtime parameters back to the
    /// configuration.
    PersistConfig,
    /// Anything else: route to error presentation.
    PresentError(ErrorKind),
}

/// What a quit intent resolves to.
#[derive(Clone, Copy, PartialEq, Eq, Structural, Debug)]
pub enum QuitAction {
    /// The operator chose minimize-on-exit: the window minimizes and the
    /// server stays.
    Minimize,
    /// Persist the last server state, stop the server, and quit.
    SaveStopQuit { last_server_state: bool },
}

/// The orchestration state machine.
pub struct LifecycleController {
    pub phase: LifecyclePhase,
}

impl LifecycleController {
    /// The server counts as active while it is starting or running.
    pub open spec fn server_active(&self) -> bool {
        self.phase is Starting || self.phase is Running
    }

    pub fn new() -> (r: LifecycleController)
        ensures
            r.phase == LifecyclePhase::Idle,
    {
        LifecycleController { phase: LifecyclePhase::Idle }
    }

    pub fn is_server_active(&self) -> (r: bool)
        ensures
            r == self.server_active(),
    {
        match self.phase {
            LifecyclePhase::Starting => true,
            LifecyclePhase::Running => true,
            _ => false,
        }
    }

    /// Resolves a start/stop toggle. An active server is to be stopped; an
    /// active probe blocks a start; otherwise the start may proceed once the
    /// entries validate.
    pub fn on_toggle_intent(&mut self, probe_running: bool) -> (r: ToggleAction)
        ensures
            r == if old(self).server_active() {
                ToggleAction::StopServer
            } else if probe_running {
                ToggleAction::RejectProbeRunning
            } else {
                ToggleAction::ProceedStart
            },
            final(self).phase == if old(self).server_active() {
                LifecyclePhase::Stopping
            } else {
                old(self).phase
            },
    {
        if self.is_server_active() {
            self.phase = LifecyclePhase::Stopping;
            ToggleAction::StopServer
        } else if probe_running {
            ToggleAction::RejectProbeRunning
        } else {
            ToggleAction::ProceedStart
        }
    }

    /// The entries validated and the spawn is being requested.
    pub fn begin_start(&mut self)
        requires
            !old(self).server_active(),
        ensures
            final(self).phase == LifecyclePhase::Starting,
    {
        self.phase = LifecyclePhase::Starting;
    }

    /// The spawn outcome is known: the server is running, or the start fell
    /// through and the machine is idle again.
    pub fn on_spawn_result(&mut self, ok: bool)
        requires
            old(self).phase is Starting,
        ensures
            final(self).phase == if ok {
                LifecyclePhase::Running
            } else {
                LifecyclePhase::Idle
            },
    {
        self.phase = if ok {
            LifecyclePhase::Running
        } else {
            LifecyclePhase::Idle
        };
    }

    /// A terminal stop reason arrived: whatever was live is over.
    pub fn on_terminal_reason(&mut self)
        ensures
            final(self).phase == LifecyclePhase::Idle,
    {
        self.phase = LifecyclePhase::Idle;
    }

    /// Resolves a probe intent against the mutual-exclusion rule: a live
    /// server refuses the probe, a live probe is cancelled, and otherwise
    /// the probe starts.
    pub fn on_probe_intent(&self, probe_running: bool) -> (r: ProbeIntent)
        ensures
            r == if self.server_active() {
                ProbeIntent::RejectServerRunning
            } else if probe_running {
                ProbeIntent::StopProbe
            } else {
                ProbeIntent::StartProbe
            },
    {
        if self.is_server_active() {
            ProbeIntent::RejectServerRunning
        } else if probe_running {
            ProbeIntent::StopProbe
        } else {
            ProbeIntent::StartProbe
        }
    }
}

/// Resolves the port entry of the start form: typed text wins when it
/// parses; non-empty unparsable text is an operator error; an empty entry
/// falls back to the placeholder when that parses, else the intent is
/// abandoned.
pub fn resolve_port_entry(text: &str, placeholder: Option<&String>) -> (r: PortDecision)
    ensures
        r == match parse_u16_spec(text@) {
            Option::Some(p) => PortDecision::UseTyped(p),
            Option::None => if text@.len() > 0 {
                PortDecision::InvalidInput
            } else {
                match placeholder {
                    Option::Some(pl) => match parse_u16_spec(pl@) {
                        Option::Some(p) => PortDecision::UsePlaceholder(p),
                        Option::None => PortDecision::Abort,
                    },
                    Option::None => PortDecision::Abort,
                }
            },
        },
{
    match parse_u16(text) {
        Some(p) => PortDecision::UseTyped(p),
        None => {
            if !text.is_empty() {
                PortDecision::InvalidInput
            } else {
                match placeholder {
                    Some(pl) => match parse_u16(pl.as_str()) {
                        Some(p) => PortDecision::UsePlaceholder(p),
                        None => PortDecision::Abort,
                    },
                    None => PortDecision::Abort,
                }
            }
        },
    }
}

/// Resolves the address entry of the start form: typed text wins, an empty
/// entry falls back to the placeholder, and with neither the address is the
/// empty string.
pub fn resolve_ip_entry(text: &str, placeholder: Option<&String>) -> (r: String)
    ensures
        r@ == if text@.len() > 0 {
            text@
        } else {
            match placeholder {
                Option::Some(pl) => pl@,
                Option::None => Seq::<char>::empty(),
            }
        },
{
    if !text.is_empty() {
        text.to_owned()
    } else {
        match placeholder {
            Some(pl) => pl.clone(),
            None => {
                let r = String::new();
                proof {
                    assert(r@ =~= Seq::<char>::empty());
                }
                r
            },
        }
    }
}

/// Routes a published stop reason: a clean exit persists the runtime
/// parameters; every other reason is presented as an error of its kind.
pub fn route_stop_reason(reason: ProcessStopReason) -> (r: StopRoute)
    ensures
        r == match reason {
            ProcessStopReason::ExitedSuccessfully => StopRoute::PersistConfig,
            ProcessStopReason::InvalidArgument => StopRoute::PresentError(ErrorKind::InvalidAddress),
            ProcessStopReason::InvalidBinding => StopRoute::PresentError(
                ErrorKind::CannotAssignAddress,
            ),
            _ => StopRoute::PresentError(ErrorKind::Other),
        },
{
    match reason {
        ProcessStopReason::ExitedSuccessfully => StopRoute::PersistConfig,
        ProcessStopReason::InvalidArgument => StopRoute::PresentError(ErrorKind::InvalidAddress),
        ProcessStopReason::InvalidBinding => StopRoute::PresentError(
            ErrorKind::CannotAssignAddress,
        ),
        _ => StopRoute::PresentError(ErrorKind::Other),
    }
}

/// Whether a fault notification may be shown at all.
pub fn error_notification_allowed(config: &AppConfig) -> (r: bool)
    ensures
        r == config.notification_error,
{
    config.notification_error
}

/// Whether a connect or disconnect notification may be shown, per the
/// corresponding configuration flag.
pub fn device_notification_allowed(config: &AppConfig, connected: bool) -> (r: bool)
    ensures
        r == if connected {
            config.notification_device_connect
        } else {
            config.notification_device_disconnect
        },
{
    if connected {
        config.notification_device_connect
    } else {
        config.notification_device_disconnect
    }
}

/// Resolves a quit intent: minimize-on-exit keeps the application alive;
/// otherwise the current server state is persisted as the last state, the
/// server stopped, and the application quits.
pub fn on_quit_intent(minimize_on_exit: bool, server_active: bool) -> (r: QuitAction)
    ensures
        r == if minimize_on_exit {
            QuitAction::Minimize
        } else {
            QuitAction::SaveStopQuit { last_server_state: server_active }
        },
{
    if minimize_on_exit {
        QuitAction::Minimize
    } else {
        QuitAction::SaveStopQuit { last_server_state: server_active }
    }
}

/// Whether the server starts on its own at startup: either because
/// auto-start is on, or because the last state is to be kept and the server
/// was running when the application last quit.
pub fn should_auto_start(config: &AppConfig) -> (r: bool)
    ensures
        r == (config.auto_start_server || (config.keep_last_state && config.last_server_state)),
{
    config.auto_start_server || (config.keep_last_state && config.last_server_state)
}

/// Whether an endpoint or encoding selection change restarts the server: it
/// does exactly when a run is live.
pub fn selection_change_restarts(server_running: bool) -> (r: bool)
    ensures
        r == server_running,
{
    server_running
}

} // verus!
