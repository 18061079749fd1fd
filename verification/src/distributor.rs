use vstd::prelude::*;

use crate::snapshot::{clamped, values_in_range, Snapshot};

verus! {

/// What a publish attempt did.
#[derive(Clone, Copy, PartialEq, Eq, Structural, Debug)]
pub enum PublishOutcome {
    /// The snapshot was accepted and is now the latest value.
    Published,
    /// The attempt came sooner than the minimum interval after the previous
    /// accepted publish; it was coalesced away and the state is unchanged.
    TooSoon,
}

/// What one non-blocking step of `next_after` decided. The caller that wants
/// the blocking behaviour re-polls on `Pending` after waiting for a wake-up.
pub enum NextOutcome {
    /// A snapshot newer than the subscription's marker, copied out.
    Ready(Snapshot),
    /// Nothing newer than the marker has been published yet.
    Pending,
    /// The distributor is closed and nothing newer will ever arrive.
    Closed,
}

/// A consumer-held handle: it tracks which publish the consumer last observed
/// and costs one marker, never a queue of snapshots.
pub struct Subscription {
    pub id: u64,
    pub last_seen: u64,
}

/// Single source of truth for the latest snapshot: one writer (the sampler),
/// any number of readers. Readers receive copies, never references into the
/// distributor, and at most one snapshot is retained however many have been
/// published.
pub struct Distributor {
    /// The most recently accepted snapshot, if any was ever published.
    pub current: Option<Snapshot>,
    /// Number of accepted publishes so far; doubles as the freshness marker.
    pub version: u64,
    /// Set once the sampler has terminated; nothing will be published after.
    pub closed: bool,
    /// Minimum spacing between accepted publishes, in milliseconds.
    pub min_interval_ms: u64,
    /// Time of the last accepted publish, in milliseconds; meaningful only
    /// when `version > 0`.
    pub last_publish_ms: u64,
    /// Number of live subscriptions.
    pub subscriber_count: u64,
    /// Identifier handed to the next subscriber.
    pub next_sub_id: u64,
    /// Every accepted snapshot, oldest first.
    pub history: Ghost<Seq<Seq<u32>>>,
    /// The acceptance time of each entry of `history`.
    pub times: Ghost<Seq<u64>>,
}

impl Distributor {
    /// Internal consistency: the version counts the history, the current
    /// snapshot is the last accepted one, every accepted value is a valid
    /// percentage vector, and accepted publish times are spaced at least the
    /// minimum interval apart.
    pub open spec fn wf(&self) -> bool {
        &&& self.version == self.history@.len()
        &&& self.times@.len() == self.history@.len()
        &&& match self.current {
            Some(s) => self.history@.len() > 0 && s@ == self.history@.last(),
            None => self.history@.len() == 0,
        }
        &&& forall|i: int| 0 <= i < self.history@.len() ==> values_in_range(#[trigger] self.history@[i])
        &&& (self.history@.len() > 0 ==> self.last_publish_ms == self.times@.last())
        &&& forall|i: int|
            0 <= i < self.times@.len() - 1 ==> #[trigger] self.times@[i] + self.min_interval_ms
                <= self.times@[i + 1]
    }

    /// A publish offered at `now_ms` is accepted exactly when it is the first
    /// one ever or comes at least the minimum interval after the last one.
    pub open spec fn can_accept(&self, now_ms: u64) -> bool {
        ||| self.version == 0
        ||| (now_ms >= self.last_publish_ms && now_ms - self.last_publish_ms
            >= self.min_interval_ms)
    }

    /// The value the next successful `next_after` would hand a consumer whose
    /// marker is `marker`: the latest snapshot if one newer exists, else none.
    pub open spec fn next_value(&self, marker: u64) -> Option<Seq<u32>> {
        if self.version > marker {
            Some(self.history@.last())
        } else {
            None
        }
    }

    /// The snapshots the distributor actually retains: at most the latest one,
    /// however long the history has grown.
    pub open spec fn held_values(&self) -> Seq<Seq<u32>> {
        match self.current {
            Some(s) => seq![s@],
            None => Seq::empty(),
        }
    }

    /// A fresh distributor: nothing published, nobody subscribed, open.
    pub fn new(min_interval_ms: u64) -> (d: Distributor)
        ensures
            d.wf(),
            d.version == 0,
            !d.closed,
            d.min_interval_ms == min_interval_ms,
            d.history@ == Seq::<Seq<u32>>::empty(),
            d.times@ == Seq::<u64>::empty(),
            d.subscriber_count == 0,
            d.next_sub_id == 0,
    {
        Distributor {
            current: None,
            version: 0,
            closed: false,
            min_interval_ms,
            last_publish_ms: 0,
            subscriber_count: 0,
            next_sub_id: 0,
            history: Ghost(Seq::empty()),
            times: Ghost(Seq::empty()),
        }
    }

    /// Replaces the current snapshot atomically, or coalesces the publish away
    /// when it comes sooner than the minimum interval allows. Called only by
    /// the sampler; never waits on any subscriber.
    pub fn publish(&mut self, snap: Snapshot, now_ms: u64) -> (r: PublishOutcome)
        requires
            old(self).wf(),
            !old(self).closed,
            snap.wf(),
            old(self).version < u64::MAX,
        ensures
            final(self).wf(),
            r == PublishOutcome::Published <==> old(self).can_accept(now_ms),
            r == PublishOutcome::Published ==> {
                &&& final(self).history@ == old(self).history@.push(snap@)
                &&& final(self).times@ == old(self).times@.push(now_ms)
                &&& final(self).version == old(self).version + 1
                &&& final(self).current matches Some(c) && c@ == snap@
                &&& final(self).last_publish_ms == now_ms
            },
            r == PublishOutcome::TooSoon ==> *final(self) == *old(self),
            final(self).closed == old(self).closed,
            final(self).subscriber_count == old(self).subscriber_count,
            final(self).next_sub_id == old(self).next_sub_id,
            final(self).min_interval_ms == old(self).min_interval_ms,
    {
        let accept = self.version == 0 || (now_ms >= self.last_publish_ms && now_ms
            - self.last_publish_ms >= self.min_interval_ms);
        if accept {
            let ghost snap_view = snap@;
            let ghost old_times = self.times@;
            self.current = Some(snap);
            self.version = self.version + 1;
            self.last_publish_ms = now_ms;
            proof {
                self.history@ = self.history@.push(snap_view);
                self.times@ = self.times@.push(now_ms);
            }
            proof {
                assert forall|i: int| 0 <= i < self.history@.len() implies values_in_range(
                    #[trigger] self.history@[i],
                ) by {
                    if i < self.history@.len() - 1 {
                        assert(self.history@[i] == old(self).history@[i]);
                    }
                }
                assert forall|i: int| 0 <= i < self.times@.len() - 1 implies #[trigger] self
                    .times@[i] + self.min_interval_ms <= self.times@[i + 1] by {
                    if i < old_times.len() - 1 {
                        assert(self.times@[i] == old_times[i]);
                        assert(self.times@[i + 1] == old_times[i + 1]);
                    } else {
                        assert(i == old_times.len() - 1);
                        assert(self.times@[i] == old_times.last());
                    }
                }
            }
            PublishOutcome::Published
        } else {
            PublishOutcome::TooSoon
        }
    }

    /// The most recently published snapshot, copied out, or nothing if no
    /// publish has ever happened. Non-blocking; used by one-shot consumers.
    pub fn latest(&self) -> (r: Option<Snapshot>)
        requires
            self.wf(),
        ensures
            r is Some <==> self.version > 0,
            r matches Some(s) ==> s@ == self.history@.last() && s.wf(),
            r is None ==> self.history@.len() == 0,
    {
        match &self.current {
            Some(s) => {
                proof {
                    assert(values_in_range(self.history@[self.history@.len() - 1]));
                }
                Some(s.clone())
            },
            None => None,
        }
    }

    /// One non-blocking step of the consumer-facing wait: hands out the latest
    /// snapshot if it is newer than the subscription's marker and advances the
    /// marker; otherwise reports `Closed` on a closed distributor — never
    /// `Pending`, so a blocked consumer cannot hang forever — or `Pending`.
    pub fn next_after(&self, sub: &mut Subscription) -> (r: NextOutcome)
        requires
            self.wf(),
        ensures
            self.version > old(sub).last_seen ==> (r matches NextOutcome::Ready(s) && s@
                == self.history@.last() && s.wf() && final(sub).last_seen == self.version),
            self.version <= old(sub).last_seen ==> *final(sub) == *old(sub),
            self.version <= old(sub).last_seen && self.closed ==> r is Closed,
            self.version <= old(sub).last_seen && !self.closed ==> r is Pending,
            self.closed ==> !(r is Pending),
            r matches NextOutcome::Ready(s) ==> Some(s@) == self.next_value(old(sub).last_seen),
            r is Ready <==> self.version > old(sub).last_seen,
            final(sub).id == old(sub).id,
    {
        if self.version > sub.last_seen {
            match &self.current {
                Some(s) => {
                    proof {
                        assert(values_in_range(self.history@[self.history@.len() - 1]));
                    }
                    sub.last_seen = self.version;
                    NextOutcome::Ready(s.clone())
                },
                None => {
                    // wf rules this out: version > 0 means a snapshot is held
                    vstd::pervasive::unreached()
                },
            }
        } else if self.closed {
            NextOutcome::Closed
        } else {
            NextOutcome::Pending
        }
    }

    /// Registers a streaming consumer. The handle's marker starts at the
    /// current version, so the subscriber will be handed the next publish and
    /// nothing older. Affects no other subscription and no published data.
    pub fn subscribe(&mut self) -> (r: Subscription)
        requires
            old(self).wf(),
            old(self).subscriber_count < u64::MAX,
            old(self).next_sub_id < u64::MAX,
        ensures
            final(self).wf(),
            r.last_seen == final(self).version,
            r.id == old(self).next_sub_id,
            final(self).subscriber_count == old(self).subscriber_count + 1,
            final(self).next_sub_id == old(self).next_sub_id + 1,
            final(self).history@ == old(self).history@,
            final(self).times@ == old(self).times@,
            final(self).version == old(self).version,
            final(self).current == old(self).current,
            final(self).closed == old(self).closed,
            final(self).min_interval_ms == old(self).min_interval_ms,
            final(self).last_publish_ms == old(self).last_publish_ms,
    {
        let id = self.next_sub_id;
        self.next_sub_id = self.next_sub_id + 1;
        self.subscriber_count = self.subscriber_count + 1;
        Subscription { id, last_seen: self.version }
    }

    /// Releases a streaming consumer's handle. Affects no other subscription
    /// and no published data.
    pub fn unsubscribe(&mut self, handle: Subscription) -> (released: u64)
        requires
            old(self).wf(),
            old(self).subscriber_count > 0,
        ensures
            final(self).wf(),
            released == handle.id,
            final(self).subscriber_count == old(self).subscriber_count - 1,
            final(self).history@ == old(self).history@,
            final(self).times@ == old(self).times@,
            final(self).version == old(self).version,
            final(self).current == old(self).current,
            final(self).closed == old(self).closed,
            final(self).min_interval_ms == old(self).min_interval_ms,
            final(self).last_publish_ms == old(self).last_publish_ms,
            final(self).next_sub_id == old(self).next_sub_id,
    {
        self.subscriber_count = self.subscriber_count - 1;
        handle.id
    }

    /// Marks the distributor permanently closed: the sampler has terminated,
    /// and every blocked consumer is to be told so rather than left hanging.
    pub fn close(&mut self)
        requires
            old(self).wf(),
        ensures
            final(self).wf(),
            final(self).closed,
            final(self).history@ == old(self).history@,
            final(self).times@ == old(self).times@,
            final(self).version == old(self).version,
            final(self).current == old(self).current,
            final(self).subscriber_count == old(self).subscriber_count,
            final(self).next_sub_id == old(self).next_sub_id,
            final(self).min_interval_ms == old(self).min_interval_ms,
            final(self).last_publish_ms == old(self).last_publish_ms,
    {
        self.closed = true;
    }
}

/// What one sampler tick did with its reading.
#[derive(Clone, Copy, PartialEq, Eq, Structural, Debug)]
pub enum TickOutcome {
    /// The OS gave no reading this tick; nothing was published and the tick
    /// is retried on the next cadence, never terminating the loop.
    Skipped,
    /// The reading was clamped and published as the new latest snapshot.
    Published,
    /// The tick came sooner than the minimum interval; the reading was
    /// dropped in favour of whatever the next well-spaced tick brings.
    Coalesced,
}

/// One iteration of the sampler loop, from reading to publish decision: a
/// failed reading is skipped and retried next tick, a good one is clamped into
/// a snapshot and offered to the distributor at time `now_ms`.
pub fn sampler_tick(dist: &mut Distributor, reading: Option<Vec<u32>>, now_ms: u64) -> (r:
    TickOutcome)
    requires
        old(dist).wf(),
        !old(dist).closed,
        old(dist).version < u64::MAX,
    ensures
        final(dist).wf(),
        final(dist).closed == old(dist).closed,
        final(dist).subscriber_count == old(dist).subscriber_count,
        final(dist).min_interval_ms == old(dist).min_interval_ms,
        reading is None ==> r == TickOutcome::Skipped && *final(dist) == *old(dist),
        r == TickOutcome::Skipped ==> reading is None,
        reading matches Some(v) ==> {
            &&& old(dist).can_accept(now_ms) ==> {
                &&& r == TickOutcome::Published
                &&& final(dist).history@ == old(dist).history@.push(clamped(v@))
                &&& final(dist).times@ == old(dist).times@.push(now_ms)
                &&& final(dist).version == old(dist).version + 1
            }
            &&& !old(dist).can_accept(now_ms) ==> r == TickOutcome::Coalesced && *final(dist)
                == *old(dist)
        },
{
    match reading {
        None => TickOutcome::Skipped,
        Some(values) => {
            let snap = Snapshot::from_reading(values);
            match dist.publish(snap, now_ms) {
                PublishOutcome::Published => TickOutcome::Published,
                PublishOutcome::TooSoon => TickOutcome::Coalesced,
            }
        },
    }
}

} // verus!
