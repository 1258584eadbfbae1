//! The worker-process supervisor: owns the "exactly zero or one live worker"
//! state, decides what each caller intent and each observed process event
//! does to it, and publishes the resulting stop-reason and device events.
//!
//! Launching the process, killing it, and reading its two streams are
//! performed by the embedding program; every decision about them is made
//! here. The embedding hands each observed log line and each stream end back
//! to these methods, so the whole path from observation to published event
//! stays in one place.

use vstd::prelude::*;
use vstd::string::*;

use crate::channel::{
    lemma_publish_seq_concat, publish_seq, DeviceChannel, DeviceReceiver, StopChannel,
    StopReceiver,
};
use crate::classifier::{classify_stdout_line, classify_stdout_spec, resolve_stderr_reason,
    resolve_stderr_spec};
use crate::events::{DeviceConnectionEvent, DeviceEventView, ProcessStopReason,
    ServerEndpointRequest, RequestView};
use crate::strutil::{dec_str, u16_to_dec, u32_to_dec};

verus! {

/// The device events the first `i` lines of a standard-output stream carry,
/// in log order.
pub open spec fn stdout_events_prefix(lines: Seq<Seq<char>>, i: int) -> Seq<DeviceEventView>
    decreases i,
{
    if i <= 0 {
        Seq::empty()
    } else {
        stdout_events_prefix(lines, i - 1) + classify_stdout_spec(lines[i - 1])
    }
}

/// The device events a whole standard-output stream carries.
pub open spec fn stdout_events(lines: Seq<Seq<char>>) -> Seq<DeviceEventView> {
    stdout_events_prefix(lines, lines.len() as int)
}

/// The worker's command line for one request: a single `--bind=<ip>:<port>`,
/// the endpoint selector, and the encoding selector.
pub open spec fn bind_arg_spec(req: RequestView) -> Seq<char> {
    "--bind="@ + req.bind_address + ":"@ + dec_str(req.bind_port as nat)
}

pub open spec fn args_spec(req: RequestView) -> Seq<Seq<char>> {
    seq![
        bind_arg_spec(req),
        "-e"@,
        dec_str(req.endpoint_id as nat),
        "--encoding"@,
        req.encoding_key,
    ]
}

/// Builds the worker's argument list for `req`.
pub fn build_args(req: &ServerEndpointRequest) -> (r: Vec<String>)
    ensures
        r@.map_values(|s: String| s@) =~= args_spec(req@),
{
    let mut bind = String::from_str("--bind=");
    bind.append(req.bind_address.as_str());
    bind.append(":");
    let port = u16_to_dec(req.bind_port);
    bind.append(port.as_str());
    let mut out: Vec<String> = Vec::new();
    out.push(bind);
    out.push(String::from_str("-e"));
    out.push(u32_to_dec(req.endpoint_id));
    out.push(String::from_str("--encoding"));
    out.push(req.encoding_key.clone());
    out
}

/// What a start intent resolves to.
pub enum StartAction {
    /// A run is already live: the intent is a silent no-op.
    AlreadyRunning,
    /// The reachability policy refused the endpoint: `FirewallBlocked` was
    /// published and nothing is spawned.
    Blocked,
    /// Spawn the worker with exactly these arguments.
    Launch(Vec<String>),
}

/// Supervisor of the worker subprocess. The running flag and the
/// handle-present flag are one atomic unit: all methods update them
/// together.
pub struct AudioShareServerThread {
    pub running: bool,
    pub child_present: bool,
    pub stop_channel: StopChannel,
    pub device_channel: DeviceChannel,
}

impl AudioShareServerThread {
    pub open spec fn wf(&self) -> bool {
        self.device_channel.wf()
    }

    /// No run is live.
    pub open spec fn idle(&self) -> bool {
        !self.running && !self.child_present
    }

    /// A fresh supervisor: idle, no stop reason yet, no device events.
    pub fn new() -> (r: AudioShareServerThread)
        ensures
            r.wf(),
            r.idle(),
            r.stop_channel.value is None,
            r.stop_channel.version == 0,
            r.device_channel.total() == 0,
    {
        AudioShareServerThread {
            running: false,
            child_present: false,
            stop_channel: StopChannel::new(),
            device_channel: DeviceChannel::new(),
        }
    }

    /// Lock-protected read of the running flag.
    pub fn is_running(&self) -> (r: bool)
        ensures
            r == self.running,
    {
        self.running
    }

    /// Subscribes to the stop-reason channel: last value wins, and only a
    /// publish after this call counts as a change.
    pub fn subscribe_stop_event(&self) -> (r: StopReceiver)
        ensures
            r.seen == self.stop_channel.version,
    {
        self.stop_channel.subscribe()
    }

    /// Subscribes to the device-event channel: only events published after
    /// this call are delivered.
    pub fn subscribe_device_event(&self) -> (r: DeviceReceiver)
        requires
            self.wf(),
        ensures
            r.next == self.device_channel.total(),
    {
        self.device_channel.subscribe()
    }

    /// Resolves a start intent. A live run makes the call a no-op; a refused
    /// reachability policy publishes `FirewallBlocked` and spawns nothing;
    /// otherwise the worker is to be launched with the deterministic argument
    /// list for `req`. The flags do not change here: they are set only by
    /// `on_spawn_result`, once the spawn outcome is known.
    pub fn start(&mut self, req: &ServerEndpointRequest, policy_allows: bool) -> (r: StartAction)
        requires
            req.wf(),
            old(self).stop_channel.version < u64::MAX,
        ensures
            final(self).running == old(self).running,
            final(self).child_present == old(self).child_present,
            final(self).device_channel == old(self).device_channel,
            r is AlreadyRunning <==> !old(self).idle(),
            match r {
                StartAction::AlreadyRunning => *final(self) == *old(self),
                StartAction::Blocked => {
                    &&& old(self).idle()
                    &&& !policy_allows
                    &&& final(self).stop_channel.value == Some(ProcessStopReason::FirewallBlocked)
                    &&& final(self).stop_channel.version == old(self).stop_channel.version + 1
                },
                StartAction::Launch(args) => {
                    &&& old(self).idle()
                    &&& policy_allows
                    &&& final(self).stop_channel == old(self).stop_channel
                    &&& args@.map_values(|s: String| s@) == args_spec(req@)
                },
            },
    {
        if self.running || self.child_present {
            return StartAction::AlreadyRunning;
        }
        if !policy_allows {
            self.stop_channel.publish(ProcessStopReason::FirewallBlocked);
            return StartAction::Blocked;
        }
        StartAction::Launch(build_args(req))
    }

    /// Records the outcome of the spawn that a `Launch` action asked for. On
    /// success the running flag and the stored handle become live as one
    /// unit; on failure both stay clear, and deliberately nothing is
    /// published: spawn failure is a local, synchronous condition surfaced to
    /// the immediate caller only.
    pub fn on_spawn_result(&mut self, ok: bool)
        requires
            old(self).idle(),
        ensures
            final(self).running == ok,
            final(self).child_present == ok,
            final(self).stop_channel == old(self).stop_channel,
            final(self).device_channel == old(self).device_channel,
    {
        self.running = ok;
        self.child_present = ok;
    }

    /// Applies one line of the worker's standard output: publishes exactly
    /// the classified connect/disconnect events, in log order, and touches
    /// nothing else.
    pub fn on_stdout_line(&mut self, line: &str)
        requires
            old(self).wf(),
            old(self).device_channel.total() + 2 <= u64::MAX,
        ensures
            final(self).wf(),
            final(self).running == old(self).running,
            final(self).child_present == old(self).child_present,
            final(self).stop_channel == old(self).stop_channel,
            final(self).device_channel.view_spec() == publish_seq(
                old(self).device_channel.view_spec(),
                classify_stdout_spec(line@),
            ),
            final(self).device_channel.total() == old(self).device_channel.total()
                + classify_stdout_spec(line@).len(),
    {
        let events = classify_stdout_line(line);
        let ghost evs = classify_stdout_spec(line@);
        let ghost v0 = self.device_channel.view_spec();
        proof {
            assert(events@.map_values(|e: DeviceConnectionEvent| e@).len() == evs.len());
            assert(evs.len() <= 2);
        }
        let n = events.len();
        let mut j: usize = 0;
        let mut events = events;
        // publish in log order: take from the front
        while j < n
            invariant
                n == events@.len(),
                0 <= j <= n,
                evs =~= events@.map_values(|e: DeviceConnectionEvent| e@),
                evs.len() <= 2,
                self.wf(),
                self.running == old(self).running,
                self.child_present == old(self).child_present,
                self.stop_channel == old(self).stop_channel,
                self.device_channel.view_spec() == publish_seq(v0, evs.subrange(0, j as int)),
                self.device_channel.total() == old(self).device_channel.total() + j,
                v0 == old(self).device_channel.view_spec(),
                old(self).device_channel.total() + 2 <= u64::MAX,
            decreases n - j,
        {
            let ev = events[j].clone();
            proof {
                crate::channel::lemma_publish_seq_push(v0, evs.subrange(0, j as int), ev@);
                assert(evs.subrange(0, j as int).push(ev@) =~= evs.subrange(0, j + 1));
            }
            self.device_channel.publish(ev);
            j = j + 1;
        }
        proof {
            assert(evs.subrange(0, n as int) =~= evs);
        }
    }

    /// The worker's standard output ended: the process is no longer
    /// objectively alive, so the running flag clears; the stored handle is
    /// left for the terminator to reap.
    pub fn on_stdout_end(&mut self)
        ensures
            !final(self).running,
            final(self).child_present == old(self).child_present,
            final(self).stop_channel == old(self).stop_channel,
            final(self).device_channel == old(self).device_channel,
    {
        self.running = false;
    }

    /// The whole standard-output task on a completed stream: every line's
    /// classified events are published in log order, and the stream end
    /// clears the running flag. The handle and the stop-reason channel are
    /// left alone: killing and the terminal publish belong to the
    /// standard-error task.
    pub fn run_stdout_task(&mut self, lines: &Vec<String>)
        requires
            old(self).wf(),
            old(self).device_channel.total() + 2 * lines@.len() <= u64::MAX,
        ensures
            final(self).wf(),
            !final(self).running,
            final(self).child_present == old(self).child_present,
            final(self).stop_channel == old(self).stop_channel,
            final(self).device_channel.view_spec() == publish_seq(
                old(self).device_channel.view_spec(),
                stdout_events(lines@.map_values(|l: String| l@)),
            ),
    {
        let ghost views = lines@.map_values(|l: String| l@);
        let ghost v0 = self.device_channel.view_spec();
        let n = lines.len();
        let mut i: usize = 0;
        while i < n
            invariant
                n == lines@.len(),
                views == lines@.map_values(|l: String| l@),
                0 <= i <= n,
                self.wf(),
                self.running == old(self).running,
                self.child_present == old(self).child_present,
                self.stop_channel == old(self).stop_channel,
                v0 == old(self).device_channel.view_spec(),
                old(self).device_channel.total() + 2 * n <= u64::MAX,
                self.device_channel.view_spec() == publish_seq(
                    v0,
                    stdout_events_prefix(views, i as int),
                ),
                self.device_channel.total() == old(self).device_channel.total()
                    + stdout_events_prefix(views, i as int).len(),
                stdout_events_prefix(views, i as int).len() <= 2 * i,
            decreases n - i,
        {
            proof {
                lemma_publish_seq_concat(
                    v0,
                    stdout_events_prefix(views, i as int),
                    classify_stdout_spec(views[i as int]),
                );
            }
            self.on_stdout_line(lines[i].as_str());
            i = i + 1;
        }
        self.on_stdout_end();
    }

    /// The terminal step of every run: the child is killed (killing an
    /// already-dead process is tolerated), handle and running flag clear as
    /// one unit, and the resolved reason is published — exactly once per
    /// run.
    pub fn finish_run(&mut self, reason: ProcessStopReason)
        requires
            old(self).stop_channel.version < u64::MAX,
        ensures
            final(self).idle(),
            final(self).stop_channel.value == Some(reason),
            final(self).stop_channel.version == old(self).stop_channel.version + 1,
            final(self).device_channel == old(self).device_channel,
    {
        self.running = false;
        self.child_present = false;
        self.stop_channel.publish(reason);
    }

    /// The whole standard-error task on a completed stream: resolve the
    /// terminal reason — the first fault marker wins, a clean stream means
    /// `ExitedSuccessfully` — then terminate and publish it.
    pub fn run_stderr_task(&mut self, lines: &Vec<String>)
        requires
            old(self).stop_channel.version < u64::MAX,
        ensures
            final(self).idle(),
            final(self).stop_channel.value == Some(
                resolve_stderr_spec(lines@.map_values(|l: String| l@)),
            ),
            final(self).stop_channel.version == old(self).stop_channel.version + 1,
            final(self).device_channel == old(self).device_channel,
    {
        let reason = resolve_stderr_reason(lines);
        self.finish_run(reason);
    }

    /// Caller-requested stop: kill whatever is present, clear handle and
    /// running flag unconditionally, publish nothing — the concurrently
    /// racing standard-error task is expected to observe the stream end and
    /// publish the terminal reason. When no run is active this changes
    /// nothing at all.
    pub fn stop(&mut self)
        ensures
            final(self).idle(),
            final(self).stop_channel == old(self).stop_channel,
            final(self).device_channel == old(self).device_channel,
            old(self).idle() ==> *final(self) == *old(self),
    {
        self.running = false;
        self.child_present = false;
    }

    /// Operator-initiated reset: the same termination as `stop`, but this
    /// call itself publishes `Resetting`, signaling that the termination was
    /// requested rather than fault-driven.
    pub fn reset(&mut self)
        requires
            old(self).stop_channel.version < u64::MAX,
        ensures
            final(self).idle(),
            final(self).stop_channel.value == Some(ProcessStopReason::Resetting),
            final(self).stop_channel.version == old(self).stop_channel.version + 1,
            final(self).device_channel == old(self).device_channel,
    {
        self.running = false;
        self.child_present = false;
        self.stop_channel.publish(ProcessStopReason::Resetting);
    }
}

} // verus!
