//! The firewall-reachability probe: a time-boxed listening socket whose only
//! question is whether anybody from outside connects before the window
//! closes. The socket itself and the waiting are performed by the embedding
//! program; every decision — whether a run may begin, what a bind outcome
//! means, how long to keep polling, and whether the outcome may be published
//! at all — is made here.

use vstd::prelude::*;
use vstd::string::*;

use crate::channel::{ResultChannel, ResultReceiver};
use crate::strutil::{dec_str, u16_to_dec};

verus! {

/// Pause between two accept polls, in milliseconds.
pub const POLL_INTERVAL_MS: u64 = 50;

/// Wall-clock ceiling of the whole accept wait, in milliseconds.
pub const WAIT_CEILING_MS: u64 = 9000;

/// `<ip>:<port>`, the address the probe listens on.
pub open spec fn addr_spec(ip: Seq<char>, port: u16) -> Seq<char> {
    ip + ":"@ + dec_str(port as nat)
}

/// Renders `<ip>:<port>` for the listener bind.
pub fn format_addr(ip: &str, port: u16) -> (r: String)
    ensures
        r@ == addr_spec(ip@, port),
{
    let mut s = ip.to_owned();
    s.append(":");
    let p = u16_to_dec(port);
    s.append(p.as_str());
    s
}

/// Mathematical value of the probe state.
#[verifier::ext_equal]
pub struct ProbeView {
    pub running: bool,
    pub listener_present: bool,
    pub dropped: nat,
    pub backlog: Seq<bool>,
}

/// What `stop` does to the probe: the running flag falls first, then the
/// listener is discarded; nothing is published.
pub open spec fn probe_stop_spec(p: ProbeView) -> ProbeView {
    ProbeView { running: false, listener_present: false, dropped: p.dropped, backlog: p.backlog }
}

/// What the end of the accept wait does: the outcome is published only when
/// the run is still live — a run cancelled mid-wait publishes nothing, so a
/// stale `false` can never race a caller that already gave up.
pub open spec fn probe_finish_spec(p: ProbeView, accepted: bool) -> ProbeView {
    if p.running {
        if p.backlog.len() < crate::channel::FANOUT_CAPACITY {
            ProbeView { backlog: p.backlog.push(accepted), ..p }
        } else {
            ProbeView { dropped: p.dropped + 1, backlog: p.backlog.drop_first().push(accepted), ..p }
        }
    } else {
        p
    }
}

/// A run that was stopped mid-wait publishes no result, whatever the wait
/// would have concluded.
pub proof fn lemma_stop_suppresses_result(p: ProbeView, accepted: bool)
    ensures
        probe_finish_spec(probe_stop_spec(p), accepted).dropped == p.dropped,
        probe_finish_spec(probe_stop_spec(p), accepted).backlog == p.backlog,
{
}

/// The firewall-reachability probe: at most one listening run at a time,
/// flag and listener updated together under the owner's lock.
pub struct FirewallTestThread {
    pub running: bool,
    pub listener_present: bool,
    pub result_channel: ResultChannel,
}

impl FirewallTestThread {
    pub open spec fn wf(&self) -> bool {
        self.result_channel.wf()
    }

    pub open spec fn idle(&self) -> bool {
        !self.running && !self.listener_present
    }

    pub open spec fn view_spec(&self) -> ProbeView {
        ProbeView {
            running: self.running,
            listener_present: self.listener_present,
            dropped: self.result_channel.dropped as nat,
            backlog: self.result_channel.backlog@,
        }
    }

    /// A fresh probe: idle, no outcomes published.
    pub fn new() -> (r: FirewallTestThread)
        ensures
            r.wf(),
            r.idle(),
            r.result_channel.total() == 0,
    {
        FirewallTestThread {
            running: false,
            listener_present: false,
            result_channel: ResultChannel::new(),
        }
    }

    /// Lock-protected read of the running flag.
    pub fn is_running(&self) -> (r: bool)
        ensures
            r == self.running,
    {
        self.running
    }

    /// Subscribes to the result channel: one boolean outcome per completed
    /// run, delivered fan-out with a bounded, lossy backlog.
    pub fn subscribe_result_event(&self) -> (r: ResultReceiver)
        requires
            self.wf(),
        ensures
            r.next == self.result_channel.total(),
    {
        self.result_channel.subscribe()
    }

    /// Resolves a start intent. A live run makes the call a warned no-op;
    /// otherwise the run begins and the listener is to be bound at
    /// `<ip>:<port>`.
    pub fn start(&mut self, server_ip: &str, server_port: u16) -> (r: Option<String>)
        ensures
            final(self).result_channel == old(self).result_channel,
            final(self).listener_present == old(self).listener_present,
            r is None <==> !old(self).idle(),
            match r {
                Option::None => *final(self) == *old(self),
                Option::Some(addr) => {
                    &&& old(self).idle()
                    &&& final(self).running
                    &&& addr@ == addr_spec(server_ip@, server_port)
                },
            },
    {
        if self.listener_present || self.running {
            return None;
        }
        self.running = true;
        Some(format_addr(server_ip, server_port))
    }

    /// Records the bind outcome. Failure publishes `false` at once and ends
    /// the run without any wait; success stores the listener and the accept
    /// wait begins.
    pub fn on_bind_result(&mut self, ok: bool)
        requires
            old(self).wf(),
            old(self).running,
            old(self).result_channel.total() < u64::MAX,
        ensures
            final(self).wf(),
            if ok {
                &&& final(self).running
                &&& final(self).listener_present
                &&& final(self).result_channel == old(self).result_channel
            } else {
                &&& final(self).idle()
                &&& final(self).result_channel.total() == old(self).result_channel.total() + 1
                &&& final(self).result_channel.backlog@.last() == false
            },
    {
        if ok {
            self.listener_present = true;
        } else {
            self.running = false;
            self.listener_present = false;
            self.result_channel.publish(false);
        }
    }

    /// Whether the accept wait keeps polling: only while the elapsed
    /// wall-clock time is under the ceiling and the run was not cancelled.
    pub fn should_poll(&self, elapsed_ms: u64) -> (r: bool)
        ensures
            r == (elapsed_ms < WAIT_CEILING_MS && self.running),
    {
        elapsed_ms < WAIT_CEILING_MS && self.running
    }

    /// Ends the accept wait with its conclusion: an accepted connection
    /// means `true`, an expired window means `false` — but the outcome is
    /// published only when the run is still live; a run cancelled mid-wait
    /// publishes nothing for that run.
    pub fn finish_wait(&mut self, accepted: bool)
        requires
            old(self).wf(),
            old(self).result_channel.total() < u64::MAX,
        ensures
            final(self).wf(),
            final(self).running == old(self).running,
            final(self).listener_present == old(self).listener_present,
            final(self).view_spec() == probe_finish_spec(old(self).view_spec(), accepted),
            old(self).running ==> {
                &&& final(self).result_channel.total() == old(self).result_channel.total() + 1
                &&& final(self).result_channel.backlog@.last() == accepted
            },
            !old(self).running ==> final(self).result_channel == old(self).result_channel,
    {
        if self.running {
            self.result_channel.publish(accepted);
            proof {
                assert(final(self).view_spec() =~= probe_finish_spec(
                    old(self).view_spec(),
                    accepted,
                ));
            }
        }
    }

    /// Cancels the run: the running flag falls first — so the poll loop's
    /// next check observes the cancellation before the socket can go away —
    /// then the listener is discarded. Publishes nothing. When no run is
    /// active this changes nothing at all.
    pub fn stop(&mut self)
        ensures
            final(self).idle(),
            final(self).result_channel == old(self).result_channel,
            final(self).view_spec() == probe_stop_spec(old(self).view_spec()),
            old(self).idle() ==> *final(self) == *old(self),
    {
        self.running = false;
        self.listener_present = false;
        proof {
            assert(final(self).view_spec() =~= probe_stop_spec(old(self).view_spec()));
        }
    }
}

} // verus!
