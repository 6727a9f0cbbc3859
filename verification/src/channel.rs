//! The latest-value channel kept for one user, and the subscription handles
//! issued against it.
//!
//! A channel owns one current [`Presence`] plus a version counter that
//! advances on every publish. A subscription remembers the last version it
//! observed; it never queues historical values, so a reader that misses any
//! number of publishes observes only the newest record on its next poll.

use vstd::prelude::*;
use crate::events::apply_patch;
use crate::events::apply_patch_exec;
use crate::events::RecordPatch;
use crate::presence::Presence;
use crate::presence::PresenceView;
use crate::user_id::UserId;

verus! {

/// A single-writer, multi-reader cell holding the latest [`Presence`] for
/// one user.
pub struct UserChannel {
    pub(crate) id: u64,
    pub(crate) version: u64,
    pub(crate) record: Presence,
}

/// The mathematical value of a [`UserChannel`]: its identity within the
/// store, the number of publishes so far, and the latest record.
pub ghost struct ChannelView {
    pub id: nat,
    pub version: nat,
    pub record: PresenceView,
}

impl View for UserChannel {
    type V = ChannelView;

    open(crate) spec fn view(&self) -> ChannelView {
        ChannelView { id: self.id as nat, version: self.version as nat, record: self.record@ }
    }
}

/// A reader's handle on one user's channel.
///
/// The handle stays valid after the issuing lookup: it keeps observing the
/// channel it was created against for as long as the store holds a channel
/// of the same identity, and keeps its last-seen record, without further
/// updates, once that channel is gone.
pub struct Subscription {
    pub(crate) user: UserId,
    pub(crate) channel_id: u64,
    pub(crate) seen_version: u64,
    pub(crate) last_seen: Presence,
}

/// The mathematical value of a [`Subscription`].
pub ghost struct SubscriptionView {
    pub user: Seq<char>,
    pub channel_id: nat,
    pub seen_version: nat,
    pub last_seen: PresenceView,
}

impl View for Subscription {
    type V = SubscriptionView;

    open(crate) spec fn view(&self) -> SubscriptionView {
        SubscriptionView {
            user: self.user@,
            channel_id: self.channel_id as nat,
            seen_version: self.seen_version as nat,
            last_seen: self.last_seen@,
        }
    }
}

impl Subscription {
    /// The user this subscription observes.
    pub fn user(&self) -> (r: &UserId)
        ensures
            r@ == self@.user,
    {
        &self.user
    }

    /// The record this subscription last observed.
    pub fn last_seen(&self) -> (r: &Presence)
        ensures
            r@ == self@.last_seen,
    {
        &self.last_seen
    }
}

impl UserChannel {
    /// A fresh channel seeded with `record`, before any publish.
    pub fn new(id: u64, record: Presence) -> (c: UserChannel)
        ensures
            c@ == (ChannelView { id: id as nat, version: 0, record: record@ }),
    {
        UserChannel { id, version: 0, record }
    }

    /// Replaces the record wholesale and advances the version.
    pub fn publish(&mut self, record: Presence)
        requires
            old(self)@.version < u64::MAX,
        ensures
            final(self)@ == (ChannelView {
                id: old(self)@.id,
                version: old(self)@.version + 1,
                record: record@,
            }),
    {
        self.version = self.version + 1;
        self.record = record;
    }

    /// Applies `patch` to the current record and publishes the result.
    pub fn modify(&mut self, patch: &RecordPatch)
        requires
            old(self)@.version < u64::MAX,
        ensures
            final(self)@ == (ChannelView {
                id: old(self)@.id,
                version: old(self)@.version + 1,
                record: apply_patch(old(self)@.record, patch@),
            }),
    {
        let next = apply_patch_exec(&self.record, patch);
        self.publish(next);
    }

    /// A new subscription that has already observed the current record.
    pub fn subscribe(&self, user: UserId) -> (s: Subscription)
        ensures
            s@ == (SubscriptionView {
                user: user@,
                channel_id: self@.id,
                seen_version: self@.version,
                last_seen: self@.record,
            }),
    {
        Subscription {
            user,
            channel_id: self.id,
            seen_version: self.version,
            last_seen: self.record.clone(),
        }
    }
}

} // verus!
