//! The per-match state broadcaster: a last-value-wins slot with a version
//! counter. Publishing overwrites the slot and advances the version; a
//! subscriber holds the last version it observed and sees only the newest
//! value, never a queue of intermediate ones.

use vstd::prelude::*;
use crate::error::CannotBroadcastError;
use crate::record::MatchState;

verus! {

/// The tuple a match publishes on every transition: its lifecycle state,
/// the readiness flags, the roster, and the reserved port.
pub struct StateSnapshot {
    pub state: MatchState,
    pub ready: Vec<bool>,
    pub players: Vec<String>,
    pub port: u32,
}

/// Field-wise agreement of two snapshots.
pub open spec fn snap_equiv(a: StateSnapshot, b: StateSnapshot) -> bool {
    &&& a.state == b.state
    &&& a.ready@ == b.ready@
    &&& a.players@ == b.players@
    &&& a.port == b.port
}

/// The broadcast slot a match owns.
pub struct Broadcaster {
    pub latest: StateSnapshot,
    pub version: u64,
    pub receivers: u64,
}

/// Field-wise agreement of two broadcasters.
pub open spec fn chan_equiv(a: Broadcaster, b: Broadcaster) -> bool {
    &&& snap_equiv(a.latest, b.latest)
    &&& a.version == b.version
    &&& a.receivers == b.receivers
}

/// A live subscription: the match it watches and the slot version the
/// subscriber saw last.
pub struct Subscription {
    pub match_id: u32,
    pub last_seen: u64,
}

impl Broadcaster {
    /// A fresh slot holding the initial tuple, with nobody subscribed yet.
    pub fn new(initial: StateSnapshot) -> (b: Broadcaster)
        ensures
            b.latest == initial,
            b.version == 0,
            b.receivers == 0,
    {
        Broadcaster { latest: initial, version: 0, receivers: 0 }
    }

    /// Overwrites the slot and wakes subscribers. Fails exactly when nobody
    /// is subscribed to deliver to, or the version space is exhausted; a
    /// failed publish leaves the slot as it was.
    pub fn publish(&mut self, snap: StateSnapshot) -> (r: Result<(), CannotBroadcastError>)
        ensures
            r is Ok <==> old(self).receivers > 0 && old(self).version < u64::MAX,
            r is Ok ==> {
                &&& final(self).latest == snap
                &&& final(self).version == old(self).version + 1
                &&& final(self).receivers == old(self).receivers
            },
            r is Err ==> *final(self) == *old(self),
    {
        if self.receivers > 0 && self.version < u64::MAX {
            self.latest = snap;
            self.version = self.version + 1;
            Ok(())
        } else {
            Err(CannotBroadcastError)
        }
    }

    /// Registers one more subscriber; the slot's current value counts as
    /// already seen, so the subscriber wakes only on the next change. The
    /// count saturates rather than overflow.
    pub fn subscribe(&mut self) -> (last_seen: u64)
        ensures
            last_seen == old(self).version,
            final(self).receivers == if old(self).receivers < u64::MAX {
                old(self).receivers + 1
            } else {
                u64::MAX as int
            },
            final(self).version == old(self).version,
            final(self).latest == old(self).latest,
    {
        if self.receivers < u64::MAX {
            self.receivers = self.receivers + 1;
        }
        self.version
    }

    /// Removes one subscriber; with nobody subscribed it does nothing.
    pub fn unsubscribe(&mut self)
        ensures
            final(self).receivers == if old(self).receivers > 0 {
                (old(self).receivers - 1) as u64
            } else {
                0u64
            },
            final(self).version == old(self).version,
            final(self).latest == old(self).latest,
    {
        if self.receivers > 0 {
            self.receivers = self.receivers - 1;
        }
    }
}

} // verus!
