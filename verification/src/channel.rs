//! The two event-delivery disciplines the components publish on. The
//! stop-reason channel is last-value-wins with per-subscriber change
//! detection; the device-event and probe-result channels are multi-consumer
//! fan-out with a bounded backlog per run of the channel, where subscribers
//! that fall behind lose the oldest entries and learn how many they lost.

use vstd::prelude::*;

use crate::events::{DeviceConnectionEvent, DeviceEventView, ProcessStopReason};

verus! {

/// Backlog bound of the fan-out channels.
pub const FANOUT_CAPACITY: usize = 16;

/// Last-value channel of the terminal stop reason: publishing replaces the
/// value and bumps a version; receivers detect a version they have not seen.
pub struct StopChannel {
    pub value: Option<ProcessStopReason>,
    pub version: u64,
}

/// A subscriber's handle on a `StopChannel`: remembers the last version it
/// observed.
pub struct StopReceiver {
    pub seen: u64,
}

impl StopChannel {
    /// A fresh channel holds no value yet.
    pub fn new() -> (r: StopChannel)
        ensures
            r.value is None,
            r.version == 0,
    {
        StopChannel { value: None, version: 0 }
    }

    /// Publishes `reason` as the latest value; every earlier value is
    /// superseded.
    pub fn publish(&mut self, reason: ProcessStopReason)
        requires
            old(self).version < u64::MAX,
        ensures
            final(self).value == Some(reason),
            final(self).version == old(self).version + 1,
    {
        self.value = Some(reason);
        self.version = self.version + 1;
    }

    /// A new subscriber starts with the current state observed: only a later
    /// publish counts as a change for it.
    pub fn subscribe(&self) -> (r: StopReceiver)
        ensures
            r.seen == self.version,
    {
        StopReceiver { seen: self.version }
    }
}

impl StopReceiver {
    /// Whether the channel has been published to since this receiver last
    /// looked.
    pub fn changed(&self, ch: &StopChannel) -> (r: bool)
        ensures
            r == (ch.version > self.seen),
    {
        ch.version > self.seen
    }

    /// Reads the latest value and marks it observed.
    pub fn borrow_and_update(&mut self, ch: &StopChannel) -> (r: Option<ProcessStopReason>)
        ensures
            r == ch.value,
            final(self).seen == ch.version,
    {
        self.seen = ch.version;
        ch.value
    }
}

/// Mathematical value of a fan-out channel of device events: how many entries
/// have been dropped from the front of the history, and the retained tail.
#[verifier::ext_equal]
pub struct DeviceChannelView {
    pub dropped: nat,
    pub backlog: Seq<DeviceEventView>,
}

/// Fan-out channel of device connect/disconnect events.
pub struct DeviceChannel {
    pub dropped: u64,
    pub backlog: Vec<DeviceConnectionEvent>,
}

/// A subscriber's handle on a `DeviceChannel`: the position in the channel's
/// history it will read next.
pub struct DeviceReceiver {
    pub next: u64,
}

/// What one receive on a fan-out channel yields.
#[derive(Debug)]
pub enum DeviceRecv {
    /// Nothing published past this receiver's position.
    Empty,
    /// The receiver fell behind and the given number of events were lost to
    /// it; its position moved to the oldest retained event.
    Lagged(u64),
    /// The next event, in publish order.
    Event(DeviceConnectionEvent),
}

/// The ring rule of one publish on a fan-out channel: append, dropping the
/// oldest retained entry when the backlog is full.
pub open spec fn publish_one(v: DeviceChannelView, e: DeviceEventView) -> DeviceChannelView {
    if v.backlog.len() < FANOUT_CAPACITY {
        DeviceChannelView { dropped: v.dropped, backlog: v.backlog.push(e) }
    } else {
        DeviceChannelView { dropped: v.dropped + 1, backlog: v.backlog.drop_first().push(e) }
    }
}

/// Publishing a sequence of events, oldest first.
pub open spec fn publish_seq(v: DeviceChannelView, evs: Seq<DeviceEventView>) -> DeviceChannelView
    decreases evs.len(),
{
    if evs.len() == 0 {
        v
    } else {
        publish_seq(publish_one(v, evs[0]), evs.drop_first())
    }
}

/// Folding from the left: publishing `evs` and then one more event is
/// publishing `evs.push(e)`.
pub proof fn lemma_publish_seq_push(v: DeviceChannelView, evs: Seq<DeviceEventView>, e: DeviceEventView)
    ensures
        publish_seq(v, evs.push(e)) == publish_one(publish_seq(v, evs), e),
    decreases evs.len(),
{
    if evs.len() == 0 {
        let one = evs.push(e);
        assert(one.drop_first() =~= Seq::<DeviceEventView>::empty());
        assert(one[0] == e);
        assert(publish_seq(v, one) == publish_seq(publish_one(v, e), one.drop_first()));
        assert(publish_seq(publish_one(v, e), one.drop_first()) == publish_one(v, e));
        assert(publish_seq(v, evs) == v);
    } else {
        let w = evs.push(e);
        assert(w.drop_first() =~= evs.drop_first().push(e));
        assert(w[0] == evs[0]);
        assert(publish_seq(v, w) == publish_seq(publish_one(v, evs[0]), evs.drop_first().push(e)));
        lemma_publish_seq_push(publish_one(v, evs[0]), evs.drop_first(), e);
        assert(publish_seq(v, evs) == publish_seq(publish_one(v, evs[0]), evs.drop_first()));
    }
}

/// Publishing two sequences one after the other is publishing their
/// concatenation.
pub proof fn lemma_publish_seq_concat(
    v: DeviceChannelView,
    a: Seq<DeviceEventView>,
    b: Seq<DeviceEventView>,
)
    ensures
        publish_seq(v, a + b) == publish_seq(publish_seq(v, a), b),
    decreases b.len(),
{
    if b.len() == 0 {
        assert(a + b =~= a);
    } else {
        lemma_publish_seq_concat(v, a, b.drop_last());
        assert(a + b =~= (a + b.drop_last()).push(b.last()));
        lemma_publish_seq_push(v, a + b.drop_last(), b.last());
        lemma_publish_seq_push(publish_seq(v, a), b.drop_last(), b.last());
        assert(b.drop_last().push(b.last()) =~= b);
    }
}

impl DeviceChannel {
    pub open spec fn view_spec(&self) -> DeviceChannelView {
        DeviceChannelView {
            dropped: self.dropped as nat,
            backlog: self.backlog@.map_values(|e: DeviceConnectionEvent| e@),
        }
    }

    /// Total number of events ever published on this channel.
    pub open spec fn total(&self) -> int {
        self.dropped + self.backlog@.len()
    }

    pub open spec fn wf(&self) -> bool {
        self.backlog@.len() <= FANOUT_CAPACITY && self.total() <= u64::MAX
    }

    pub fn new() -> (r: DeviceChannel)
        ensures
            r.wf(),
            r.dropped == 0,
            r.backlog@.len() == 0,
    {
        DeviceChannel { dropped: 0, backlog: Vec::new() }
    }

    /// Publishes one event: it is appended to the history, and when the
    /// backlog is full the oldest retained event is dropped.
    pub fn publish(&mut self, ev: DeviceConnectionEvent)
        requires
            old(self).wf(),
            old(self).total() < u64::MAX,
        ensures
            final(self).wf(),
            final(self).total() == old(self).total() + 1,
            final(self).dropped >= old(self).dropped,
            final(self).view_spec().backlog.len() > 0,
            final(self).view_spec().backlog.last() == ev@,
            final(self).view_spec() == publish_one(old(self).view_spec(), ev@),
    {
        if self.backlog.len() >= FANOUT_CAPACITY {
            self.backlog.remove(0);
            self.dropped = self.dropped + 1;
        }
        self.backlog.push(ev);
        proof {
            assert(final(self).view_spec() =~= publish_one(old(self).view_spec(), ev@));
        }
    }

    /// A new subscriber sees only events published after it subscribed.
    pub fn subscribe(&self) -> (r: DeviceReceiver)
        requires
            self.wf(),
        ensures
            r.next == self.total(),
    {
        let r = DeviceReceiver { next: self.dropped + self.backlog.len() as u64 };
        r
    }
}

impl DeviceReceiver {
    /// Receives the next event past this receiver's position, reporting a
    /// lag when older events were already dropped.
    pub fn try_recv(&mut self, ch: &DeviceChannel) -> (r: DeviceRecv)
        requires
            ch.wf(),
            old(self).next <= ch.total(),
        ensures
            final(self).next <= ch.total(),
            match r {
                DeviceRecv::Empty => {
                    &&& old(self).next == ch.total()
                    &&& final(self).next == old(self).next
                },
                DeviceRecv::Lagged(n) => {
                    &&& old(self).next < ch.dropped
                    &&& n == ch.dropped - old(self).next
                    &&& final(self).next == ch.dropped
                },
                DeviceRecv::Event(ev) => {
                    &&& ch.dropped <= old(self).next < ch.total()
                    &&& ev@ == ch.view_spec().backlog[old(self).next - ch.dropped]
                    &&& final(self).next == old(self).next + 1
                },
            },
    {
        let total = ch.dropped + ch.backlog.len() as u64;
        if self.next >= total {
            DeviceRecv::Empty
        } else if self.next < ch.dropped {
            let missed = ch.dropped - self.next;
            self.next = ch.dropped;
            DeviceRecv::Lagged(missed)
        } else {
            let idx = (self.next - ch.dropped) as usize;
            let ev = ch.backlog[idx].clone();
            self.next = self.next + 1;
            DeviceRecv::Event(ev)
        }
    }
}

/// Mathematical value of the probe-result channel.
#[verifier::ext_equal]
pub struct ResultChannelView {
    pub dropped: nat,
    pub backlog: Seq<bool>,
}

/// Fan-out channel of probe outcomes, one boolean per completed run.
pub struct ResultChannel {
    pub dropped: u64,
    pub backlog: Vec<bool>,
}

/// A subscriber's handle on a `ResultChannel`.
pub struct ResultReceiver {
    pub next: u64,
}

/// What one receive on the probe-result channel yields.
#[derive(Debug)]
pub enum ResultRecv {
    Empty,
    Lagged(u64),
    Value(bool),
}

impl ResultChannel {
    pub open spec fn view_spec(&self) -> ResultChannelView {
        ResultChannelView { dropped: self.dropped as nat, backlog: self.backlog@ }
    }

    /// Total number of outcomes ever published on this channel.
    pub open spec fn total(&self) -> int {
        self.dropped + self.backlog@.len()
    }

    pub open spec fn wf(&self) -> bool {
        self.backlog@.len() <= FANOUT_CAPACITY && self.total() <= u64::MAX
    }

    pub fn new() -> (r: ResultChannel)
        ensures
            r.wf(),
            r.dropped == 0,
            r.backlog@.len() == 0,
    {
        ResultChannel { dropped: 0, backlog: Vec::new() }
    }

    /// Publishes one outcome, dropping the oldest retained one when full.
    pub fn publish(&mut self, outcome: bool)
        requires
            old(self).wf(),
            old(self).total() < u64::MAX,
        ensures
            final(self).wf(),
            final(self).total() == old(self).total() + 1,
            final(self).backlog@.len() > 0,
            final(self).backlog@.last() == outcome,
            final(self).backlog@ == if old(self).backlog@.len() < FANOUT_CAPACITY {
                old(self).backlog@.push(outcome)
            } else {
                old(self).backlog@.drop_first().push(outcome)
            },
    {
        if self.backlog.len() >= FANOUT_CAPACITY {
            self.backlog.remove(0);
            self.dropped = self.dropped + 1;
        }
        self.backlog.push(outcome);
        proof {
            assert(final(self).backlog@ =~= if old(self).backlog@.len() < FANOUT_CAPACITY {
                old(self).backlog@.push(outcome)
            } else {
                old(self).backlog@.drop_first().push(outcome)
            });
        }
    }

    /// A new subscriber sees only outcomes published after it subscribed.
    pub fn subscribe(&self) -> (r: ResultReceiver)
        requires
            self.wf(),
        ensures
            r.next == self.total(),
    {
        ResultReceiver { next: self.dropped + self.backlog.len() as u64 }
    }
}

impl ResultReceiver {
    /// Receives the next outcome past this receiver's position.
    pub fn try_recv(&mut self, ch: &ResultChannel) -> (r: ResultRecv)
        requires
            ch.wf(),
            old(self).next <= ch.total(),
        ensures
            final(self).next <= ch.total(),
            match r {
                ResultRecv::Empty => {
                    &&& old(self).next == ch.total()
                    &&& final(self).next == old(self).next
                },
                ResultRecv::Lagged(n) => {
                    &&& old(self).next < ch.dropped
                    &&& n == ch.dropped - old(self).next
                    &&& final(self).next == ch.dropped
                },
                ResultRecv::Value(b) => {
                    &&& ch.dropped <= old(self).next < ch.total()
                    &&& b == ch.backlog@[old(self).next - ch.dropped]
                    &&& final(self).next == old(self).next + 1
                },
            },
    {
        let total = ch.dropped + ch.backlog.len() as u64;
        if self.next >= total {
            ResultRecv::Empty
        } else if self.next < ch.dropped {
            let missed = ch.dropped - self.next;
            self.next = ch.dropped;
            ResultRecv::Lagged(missed)
        } else {
            let idx = (self.next - ch.dropped) as usize;
            let b = ch.backlog[idx];
            self.next = self.next + 1;
            ResultRecv::Value(b)
        }
    }
}

} // verus!
