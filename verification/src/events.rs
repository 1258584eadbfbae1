//! The typed values that flow out of the supervised components: the terminal
//! stop reason of a run, device connect/disconnect events, and the parameters
//! a caller supplies to start a run.

use vstd::prelude::*;

verus! {

/// Terminal classification of why a supervised run ended. Exactly one value
/// is resolved per run and published on the stop-reason channel.
#[derive(Clone, Copy, PartialEq, Eq, Structural, Debug)]
pub enum ProcessStopReason {
    InvalidBinding,
    InvalidArgument,
    FirewallBlocked,
    ExitedSuccessfully,
    Resetting,
    ExitedWithError(Option<i32>),
    FailedToKill,
}

/// Mathematical value of a `DeviceConnectionEvent`.
#[verifier::ext_equal]
pub struct DeviceEventView {
    pub peer_address: Seq<char>,
    pub connected: bool,
}

/// A connect (`connected == true`) or disconnect (`connected == false`)
/// observed in the worker's log for one peer address.
#[derive(Debug)]
pub struct DeviceConnectionEvent {
    pub peer_address: String,
    pub connected: bool,
}

impl View for DeviceConnectionEvent {
    type V = DeviceEventView;

    open spec fn view(&self) -> DeviceEventView {
        DeviceEventView { peer_address: self.peer_address@, connected: self.connected }
    }
}

impl Clone for DeviceConnectionEvent {
    fn clone(&self) -> (r: Self)
        ensures
            r@ == self@,
    {
        let r = DeviceConnectionEvent {
            peer_address: self.peer_address.clone(),
            connected: self.connected,
        };
        proof {
            assert(r@ =~= self@);
        }
        r
    }
}

/// Mathematical value of a `ServerEndpointRequest`.
#[verifier::ext_equal]
pub struct RequestView {
    pub bind_address: Seq<char>,
    pub bind_port: u16,
    pub endpoint_id: u32,
    pub encoding_key: Seq<char>,
}

/// Caller-supplied parameters of one run, immutable for its duration.
#[derive(Debug)]
pub struct ServerEndpointRequest {
    pub bind_address: String,
    pub bind_port: u16,
    pub endpoint_id: u32,
    pub encoding_key: String,
}

impl View for ServerEndpointRequest {
    type V = RequestView;

    open spec fn view(&self) -> RequestView {
        RequestView {
            bind_address: self.bind_address@,
            bind_port: self.bind_port,
            endpoint_id: self.endpoint_id,
            encoding_key: self.encoding_key@,
        }
    }
}

impl ServerEndpointRequest {
    /// A request is well formed when the bind address is non-empty and the
    /// port is non-zero; both are the caller's responsibility, validated
    /// upstream of the supervisor.
    pub open spec fn wf(&self) -> bool {
        self.bind_address@.len() > 0 && self.bind_port != 0
    }
}

} // verus!
