//! The presence store: a mapping from user identifier to [`UserChannel`],
//! with lazy creation on first lookup, event-driven updates and removal,
//! and subscription reads.
//!
//! Every operation is specified against [`StoreView`], the mathematical
//! value of a store: a map from user identifier to channel value plus the
//! next channel identity. Channel identities are handed out fresh, so a
//! subscription can tell the channel it was issued against from any channel
//! created later under the same user.

use vstd::prelude::*;
use crate::channel::ChannelView;
use crate::channel::Subscription;
use crate::channel::SubscriptionView;
use crate::channel::UserChannel;
use crate::events::apply_patch;
use crate::events::MembershipChange;
use crate::events::MembershipEvent;
use crate::events::MembershipEventView;
use crate::events::MembershipState;
use crate::events::PatchView;
use crate::events::PresenceEvent;
use crate::events::PresenceEventView;
use crate::events::RecordPatch;
use crate::presence::clone_opt_string;
use crate::presence::Presence;
use crate::presence::PresenceError;
use crate::presence::PresenceView;
use crate::resolver::is_joined;
use crate::resolver::opt_member_view;
use crate::resolver::opt_presence_view;
use crate::resolver::resolve_presence;
use crate::resolver::resolved_record;
use crate::resolver::MemberInfo;
use crate::resolver::MemberInfoView;
use crate::resolver::PresenceData;
use crate::resolver::PresenceDataView;
use crate::user_id::UserId;

verus! {

/// The mathematical value of a [`Presences`] store.
pub ghost struct StoreView {
    /// The channel value currently held for each tracked user.
    pub chans: Map<Seq<char>, ChannelView>,
    /// The identity the next created channel will carry.
    pub next_id: nat,
}

/// Every channel the store holds was created before `next_id`.
pub open spec fn store_wf(s: StoreView) -> bool {
    forall|u: Seq<char>| #[trigger] s.chans.contains_key(u) ==> s.chans[u].id < s.next_id
}

/// The store after a leave event for `u`: the entry is gone, and nothing
/// else moved. Removing an absent entry changes nothing.
pub open spec fn remove_entry_model(s: StoreView, u: Seq<char>) -> StoreView {
    StoreView { chans: s.chans.remove(u), next_id: s.next_id }
}

/// The store after an update for `u`: if `u` is tracked, exactly its
/// channel advances one version with the patched record; if not, the
/// update is dropped and nothing changes.
pub open spec fn apply_update_model(s: StoreView, u: Seq<char>, p: PatchView) -> StoreView {
    if s.chans.contains_key(u) {
        StoreView {
            chans: s.chans.insert(
                u,
                ChannelView {
                    id: s.chans[u].id,
                    version: s.chans[u].version + 1,
                    record: apply_patch(s.chans[u].record, p),
                },
            ),
            next_id: s.next_id,
        }
    } else {
        s
    }
}

/// The store after seeding a fresh channel for `u` with `rec`: the channel
/// carries the next identity, and the identity counter advances.
pub open spec fn create_entry_model(s: StoreView, u: Seq<char>, rec: PresenceView) -> StoreView {
    StoreView {
        chans: s.chans.insert(u, ChannelView { id: s.next_id, version: 0, record: rec }),
        next_id: s.next_id + 1,
    }
}

/// The subscription issued against the channel the store currently holds
/// for `u`; meaningful only when `u` is tracked.
pub open spec fn subscription_to(s: StoreView, u: Seq<char>) -> SubscriptionView {
    SubscriptionView {
        user: u,
        channel_id: s.chans[u].id,
        seen_version: s.chans[u].version,
        last_seen: s.chans[u].record,
    }
}

/// Whether `sub` still observes a channel the store holds: its user is
/// tracked and the channel is the one the subscription was issued against.
pub open spec fn sub_live(s: StoreView, sub: SubscriptionView) -> bool {
    s.chans.contains_key(sub.user) && s.chans[sub.user].id == sub.channel_id
}

/// What a non-blocking read through `sub` observes: the channel's current
/// record while the channel lives, the subscription's last-seen record
/// once it is gone.
pub open spec fn current_value_model(s: StoreView, sub: SubscriptionView) -> PresenceView {
    if sub_live(s, sub) {
        s.chans[sub.user].record
    } else {
        sub.last_seen
    }
}

/// One poll for a change through `sub`: if the observed channel lives and
/// has published since the subscription last looked, the subscription
/// catches up to the latest record — only the latest — and yields it;
/// otherwise nothing is yielded and the subscription is unchanged.
pub open spec fn poll_model(s: StoreView, sub: SubscriptionView) -> (SubscriptionView, Option<
    PresenceView,
>) {
    if sub_live(s, sub) && s.chans[sub.user].version != sub.seen_version {
        (
            SubscriptionView {
                user: sub.user,
                channel_id: sub.channel_id,
                seen_version: s.chans[sub.user].version,
                last_seen: s.chans[sub.user].record,
            },
            Some(s.chans[sub.user].record),
        )
    } else {
        (sub, None)
    }
}

/// How a subscription request ends: a subscription, or one of the two
/// resolution failures.
pub ghost enum SubscribeOutcome {
    Subscribed(SubscriptionView),
    NotTracked,
    PresenceUnavailable,
}

/// The store and outcome after a subscription request for `u`, given what
/// the upstream lookups would report: an existing entry is subscribed to
/// as it stands; otherwise the entry is created exactly when `u` is a
/// joined member with presence available, and the store is untouched on
/// failure.
pub open spec fn presence_for_model(
    s: StoreView,
    u: Seq<char>,
    m: Option<MemberInfoView>,
    p: Option<PresenceDataView>,
) -> (StoreView, SubscribeOutcome) {
    if s.chans.contains_key(u) {
        (s, SubscribeOutcome::Subscribed(subscription_to(s, u)))
    } else {
        match m {
            None => (s, SubscribeOutcome::NotTracked),
            Some(mi) => if mi.membership != MembershipState::Join {
                (s, SubscribeOutcome::NotTracked)
            } else {
                match p {
                    None => (s, SubscribeOutcome::PresenceUnavailable),
                    Some(pd) => (
                        create_entry_model(s, u, resolved_record(mi, pd)),
                        SubscribeOutcome::Subscribed(
                            SubscriptionView {
                                user: u,
                                channel_id: s.next_id,
                                seen_version: 0,
                                last_seen: resolved_record(mi, pd),
                            },
                        ),
                    ),
                }
            },
        }
    }
}

/// The store after one membership event: a leave removes the subject's
/// entry, a join patches the sender's profile fields, anything else is
/// ignored.
pub open spec fn membership_step(s: StoreView, ev: MembershipEventView) -> StoreView {
    if ev.membership == MembershipState::Leave {
        remove_entry_model(s, ev.state_key)
    } else if ev.membership == MembershipState::Join {
        apply_update_model(
            s,
            ev.sender,
            PatchView::Profile { avatar_url: ev.avatar_url, displayname: ev.displayname },
        )
    } else {
        s
    }
}

/// The store after one presence event: the sender's activity fields are
/// patched if they are tracked, and nothing happens otherwise.
pub open spec fn presence_step(s: StoreView, ev: PresenceEventView) -> StoreView {
    apply_update_model(
        s,
        ev.sender,
        PatchView::Activity {
            currently_active: ev.currently_active,
            last_active_ago: ev.last_active_ago,
            presence: ev.presence,
            status_msg: ev.status_msg,
        },
    )
}

struct Entry {
    user: UserId,
    chan: UserChannel,
}

/// No two entries are kept under the same user identifier.
spec fn distinct_keys(s: Seq<Entry>) -> bool {
    forall|i: int, j: int| 0 <= i < j < s.len() ==> s[i].user@ != s[j].user@
}

/// The map an entry sequence denotes; later entries would win, and under
/// [`distinct_keys`] each user appears at most once.
spec fn entries_map(s: Seq<Entry>) -> Map<Seq<char>, ChannelView>
    decreases s.len(),
{
    if s.len() == 0 {
        Map::empty()
    } else {
        entries_map(s.drop_last()).insert(s.last().user@, s.last().chan@)
    }
}

proof fn lemma_map_absent(s: Seq<Entry>, u: Seq<char>)
    requires
        forall|i: int| 0 <= i < s.len() ==> s[i].user@ != u,
    ensures
        !entries_map(s).contains_key(u),
    decreases s.len(),
{
    if s.len() > 0 {
        lemma_map_absent(s.drop_last(), u);
    }
}

proof fn lemma_map_contains_exists(s: Seq<Entry>, u: Seq<char>)
    requires
        entries_map(s).contains_key(u),
    ensures
        exists|i: int| 0 <= i < s.len() && s[i].user@ == u,
    decreases s.len(),
{
    if s.len() > 0 {
        if s.last().user@ == u {
            assert(s[s.len() - 1].user@ == u);
        } else {
            lemma_map_contains_exists(s.drop_last(), u);
            let i = choose|i: int| 0 <= i < s.drop_last().len() && s.drop_last()[i].user@ == u;
            assert(s[i].user@ == u);
        }
    }
}

proof fn lemma_map_present(s: Seq<Entry>, i: int)
    requires
        distinct_keys(s),
        0 <= i < s.len(),
    ensures
        entries_map(s).contains_key(s[i].user@),
        entries_map(s)[s[i].user@] == s[i].chan@,
    decreases s.len(),
{
    if i < s.len() - 1 {
        lemma_map_present(s.drop_last(), i);
        assert(s[s.len() - 1].user@ != s[i].user@);
    }
}

proof fn lemma_map_len(s: Seq<Entry>)
    requires
        distinct_keys(s),
    ensures
        entries_map(s).dom().finite(),
        entries_map(s).len() == s.len(),
    decreases s.len(),
{
    if s.len() > 0 {
        lemma_map_len(s.drop_last());
        lemma_map_absent(s.drop_last(), s.last().user@);
    }
}

proof fn lemma_map_push(s: Seq<Entry>, e: Entry)
    ensures
        entries_map(s.push(e)) == entries_map(s).insert(e.user@, e.chan@),
{
    assert(s.push(e).drop_last() =~= s);
    assert(s.push(e).last() == e);
}

proof fn lemma_map_remove(s: Seq<Entry>, i: int)
    requires
        distinct_keys(s),
        0 <= i < s.len(),
    ensures
        entries_map(s.remove(i)) == entries_map(s).remove(s[i].user@),
    decreases s.len(),
{
    let d = s.drop_last();
    if i == s.len() - 1 {
        assert(s.remove(i) =~= d);
        assert(forall|j: int| 0 <= j < d.len() ==> d[j].user@ != s[i].user@);
        lemma_map_absent(d, s[i].user@);
        assert(entries_map(s.remove(i)) =~= entries_map(s).remove(s[i].user@));
    } else {
        assert(s.remove(i).drop_last() =~= d.remove(i));
        assert(s.remove(i).last() == s.last());
        lemma_map_remove(d, i);
        assert(s.last().user@ != s[i].user@);
        assert(entries_map(s.remove(i)) == entries_map(d.remove(i)).insert(
            s.last().user@,
            s.last().chan@,
        ));
        assert(entries_map(d).remove(s[i].user@).insert(s.last().user@, s.last().chan@)
            =~= entries_map(d).insert(s.last().user@, s.last().chan@).remove(s[i].user@));
    }
}

proof fn lemma_map_update(s: Seq<Entry>, i: int, e: Entry)
    requires
        distinct_keys(s),
        0 <= i < s.len(),
        e.user@ == s[i].user@,
    ensures
        entries_map(s.update(i, e)) == entries_map(s).insert(e.user@, e.chan@),
    decreases s.len(),
{
    let d = s.drop_last();
    if i == s.len() - 1 {
        assert(s.update(i, e).drop_last() =~= d);
        assert(s.update(i, e).last() == e);
        assert(entries_map(d).insert(s.last().user@, s.last().chan@).insert(e.user@, e.chan@)
            =~= entries_map(d).insert(e.user@, e.chan@));
    } else {
        assert(s.update(i, e).drop_last() =~= d.update(i, e));
        assert(s.update(i, e).last() == s.last());
        lemma_map_update(d, i, e);
        assert(s.last().user@ != e.user@);
        assert(entries_map(d).insert(e.user@, e.chan@).insert(s.last().user@, s.last().chan@)
            =~= entries_map(d).insert(s.last().user@, s.last().chan@).insert(e.user@, e.chan@));
    }
}

/// The mapping from user identity to [`UserChannel`].
///
/// Entries are created only by [`Presences::presence_for`]'s slow path,
/// never by event traffic; a leave event removes its user's entry; an
/// update for an untracked user is silently dropped. Creation re-checks
/// for an existing entry before inserting, so a request that raced a
/// creation subscribes to the channel that won — a channel, once
/// observable, is only ever replaced through removal.
///
/// Each operation is one atomic step of the model; a process with
/// concurrent readers and writers drives the store through a single
/// synchronized handle and does its waiting outside it.
pub struct Presences {
    entries: Vec<Entry>,
    next_id: u64,
}

impl View for Presences {
    type V = StoreView;

    closed spec fn view(&self) -> StoreView {
        StoreView { chans: entries_map(self.entries@), next_id: self.next_id as nat }
    }
}

impl Presences {
    /// The representation invariant: entries are per-user unique, and every
    /// held channel identity is below the counter.
    pub closed spec fn inv(&self) -> bool {
        &&& distinct_keys(self.entries@)
        &&& forall|i: int|
            0 <= i < self.entries@.len() ==> self.entries@[i].chan@.id < self.next_id
    }

    /// A valid store denotes a well-formed model.
    pub proof fn lemma_inv_implies_wf(&self)
        requires
            self.inv(),
        ensures
            store_wf(self@),
    {
        assert forall|u: Seq<char>| #[trigger]
            self@.chans.contains_key(u) implies self@.chans[u].id < self@.next_id by {
            lemma_map_contains_exists(self.entries@, u);
            let i = choose|i: int|
                0 <= i < self.entries@.len() && self.entries@[i].user@ == u;
            lemma_map_present(self.entries@, i);
        }
    }

    /// An empty store, tracking nobody.
    pub fn new() -> (s: Presences)
        ensures
            s.inv(),
            s@ == (StoreView { chans: Map::<Seq<char>, ChannelView>::empty(), next_id: 0nat }),
    {
        Presences { entries: Vec::new(), next_id: 0 }
    }

    /// The index of `user`'s entry, tied to the denoted map.
    fn find_index(&self, user: &UserId) -> (r: Option<usize>)
        requires
            self.inv(),
        ensures
            r matches Some(i) ==> i < self.entries@.len() && self.entries@[i as int].user@
                == user@ && self@.chans.contains_key(user@) && self@.chans[user@]
                == self.entries@[i as int].chan@,
            r is None ==> !self@.chans.contains_key(user@),
    {
        let n = self.entries.len();
        let mut i: usize = 0;
        while i < n
            invariant
                0 <= i <= n,
                n == self.entries@.len(),
                self.inv(),
                forall|j: int| 0 <= j < i ==> self.entries@[j].user@ != user@,
            decreases n - i,
        {
            if self.entries[i].user == *user {
                proof {
                    lemma_map_present(self.entries@, i as int);
                }
                return Some(i);
            }
            i += 1;
        }
        proof {
            lemma_map_absent(self.entries@, user@);
        }
        None
    }

    /// How many users the store currently holds an entry for.
    pub fn len(&self) -> (r: usize)
        requires
            self.inv(),
        ensures
            r == self@.chans.len(),
    {
        proof {
            lemma_map_len(self.entries@);
        }
        self.entries.len()
    }

    /// The version of `user`'s channel, if they are tracked. A caller about
    /// to publish can check the version has headroom.
    pub fn version_of(&self, user: &UserId) -> (r: Option<u64>)
        requires
            self.inv(),
        ensures
            (r is Some) == self@.chans.contains_key(user@),
            r matches Some(v) ==> v as nat == self@.chans[user@].version,
    {
        match self.find_index(user) {
            Some(i) => Some(self.entries[i].chan.version),
            None => None,
        }
    }

    /// Whether the channel-identity counter is exhausted, after which no
    /// further entry can be created.
    pub fn at_capacity(&self) -> (r: bool)
        requires
            self.inv(),
        ensures
            r == (self@.next_id >= u64::MAX),
    {
        self.next_id == u64::MAX
    }

    /// Whether the store currently holds an entry for `user`.
    pub fn contains_user(&self, user: &UserId) -> (r: bool)
        requires
            self.inv(),
        ensures
            r == self@.chans.contains_key(user@),
    {
        self.find_index(user).is_some()
    }

    /// A new subscription to `user`'s existing channel, without touching
    /// upstream; nothing when `user` has no entry.
    pub fn subscribe_existing(&self, user: &UserId) -> (r: Option<Subscription>)
        requires
            self.inv(),
        ensures
            (r is Some) == self@.chans.contains_key(user@),
            r matches Some(sub) ==> sub@ == subscription_to(self@, user@),
    {
        match self.find_index(user) {
            Some(i) => Some(self.entries[i].chan.subscribe(user.clone())),
            None => None,
        }
    }

    /// A subscription to `user`'s channel, creating it on a miss from the
    /// outcomes of the two upstream lookups.
    ///
    /// `member` and `presence` are what the caller's upstream queries
    /// reported for `user`; they are consulted only on a miss, exactly as
    /// [`presence_for_model`] says. On a hit they may be anything, and the
    /// returned subscription observes the channel that already existed.
    pub fn presence_for(
        &mut self,
        user: &UserId,
        member: Option<&MemberInfo>,
        presence: Option<&PresenceData>,
    ) -> (r: Result<Subscription, PresenceError>)
        requires
            old(self).inv(),
            old(self)@.chans.contains_key(user@) || old(self)@.next_id < u64::MAX,
        ensures
            final(self).inv(),
            final(self)@ == presence_for_model(
                old(self)@,
                user@,
                opt_member_view(member),
                opt_presence_view(presence),
            ).0,
            ({
                let out = presence_for_model(
                    old(self)@,
                    user@,
                    opt_member_view(member),
                    opt_presence_view(presence),
                ).1;
                match r {
                    Ok(sub) => out matches SubscribeOutcome::Subscribed(sv) && sub@ == sv,
                    Err(e) => match e {
                        PresenceError::NotTracked(u) => out is NotTracked && u@ == user@,
                        PresenceError::PresenceUnavailable(u) => out is PresenceUnavailable && u@
                            == user@,
                        PresenceError::InternalError(_) => false,
                    },
                }
            }),
    {
        match self.find_index(user) {
            Some(i) => Ok(self.entries[i].chan.subscribe(user.clone())),
            None => {
                match resolve_presence(user, member, presence) {
                    Err(e) => Err(e),
                    Ok(rec) => {
                        let chan = UserChannel::new(self.next_id, rec);
                        let sub = chan.subscribe(user.clone());
                        let entry = Entry { user: user.clone(), chan };
                        let ghost old_entries = self.entries@;
                        let ghost esnap = entry;
                        proof {
                            assert forall|j: int|
                                0 <= j < old_entries.len() implies old_entries[j].user@
                                != user@ by {
                                if old_entries[j].user@ == user@ {
                                    lemma_map_present(old_entries, j);
                                }
                            }
                        }
                        self.entries.push(entry);
                        self.next_id = self.next_id + 1;
                        proof {
                            lemma_map_push(old_entries, esnap);
                        }
                        Ok(sub)
                    },
                }
            },
        }
    }

    /// Removes `user`'s entry if present; removing an untracked user is a
    /// no-op. Subscriptions already issued keep their last-seen value and
    /// receive no further updates.
    pub fn remove_entry(&mut self, user: &UserId)
        requires
            old(self).inv(),
        ensures
            final(self).inv(),
            final(self)@ == remove_entry_model(old(self)@, user@),
    {
        match self.find_index(user) {
            Some(i) => {
                let ghost old_entries = self.entries@;
                self.entries.remove(i);
                proof {
                    lemma_map_remove(old_entries, i as int);
                }
            },
            None => {
                proof {
                    assert(self@.chans.remove(user@) =~= self@.chans);
                }
            },
        }
    }

    /// Patches `user`'s record and wakes their subscribers; an update for
    /// an untracked user is silently dropped and never creates an entry.
    pub fn apply_update(&mut self, user: &UserId, patch: &RecordPatch)
        requires
            old(self).inv(),
            old(self)@.chans.contains_key(user@) ==> old(self)@.chans[user@].version < u64::MAX,
        ensures
            final(self).inv(),
            final(self)@ == apply_update_model(old(self)@, user@, patch@),
    {
        match self.find_index(user) {
            Some(i) => {
                let ghost old_entries = self.entries@;
                self.entries[i].chan.modify(patch);
                proof {
                    lemma_map_update(old_entries, i as int, self.entries@[i as int]);
                }
            },
            None => {},
        }
    }

    /// Applies one membership event: a leave removes the subject's entry, a
    /// join patches the sender's profile fields, anything else is ignored.
    /// Yields the subject when their fresh join should prompt the
    /// best-effort presence-availability check, which lives with the
    /// caller.
    pub fn handle_membership_event(&mut self, ev: &MembershipEvent) -> (notify: Option<UserId>)
        requires
            old(self).inv(),
            ev.membership == MembershipState::Join && old(self)@.chans.contains_key(ev.sender@)
                ==> old(self)@.chans[ev.sender@].version < u64::MAX,
        ensures
            final(self).inv(),
            final(self)@ == membership_step(old(self)@, ev@),
            (notify is Some) == (ev.membership == MembershipState::Join && (ev.change
                == MembershipChange::Joined || ev.change == MembershipChange::InvitationAccepted)),
            notify matches Some(u) ==> u@ == ev.state_key@,
    {
        match ev.membership {
            MembershipState::Leave => {
                self.remove_entry(&ev.state_key);
                None
            },
            MembershipState::Join => {
                let notify = if ev.change == MembershipChange::Joined || ev.change
                    == MembershipChange::InvitationAccepted {
                    Some(ev.state_key.clone())
                } else {
                    None
                };
                let patch = RecordPatch::Profile {
                    avatar_url: clone_opt_string(&ev.avatar_url),
                    displayname: clone_opt_string(&ev.displayname),
                };
                self.apply_update(&ev.sender, &patch);
                notify
            },
            _ => None,
        }
    }

    /// Applies one presence event: the sender's activity fields are patched
    /// if they are tracked, and the event is dropped otherwise.
    pub fn handle_presence_event(&mut self, ev: &PresenceEvent)
        requires
            old(self).inv(),
            old(self)@.chans.contains_key(ev.sender@) ==> old(self)@.chans[ev.sender@].version
                < u64::MAX,
        ensures
            final(self).inv(),
            final(self)@ == presence_step(old(self)@, ev@),
    {
        let patch = RecordPatch::Activity {
            currently_active: ev.currently_active,
            last_active_ago: ev.last_active_ago,
            presence: ev.presence,
            status_msg: clone_opt_string(&ev.status_msg),
        };
        self.apply_update(&ev.sender, &patch);
    }

    /// The record `sub` observes right now, without waiting: the channel's
    /// current record while the channel lives, the last-seen record once it
    /// is gone.
    pub fn current_value(&self, sub: &Subscription) -> (r: Presence)
        requires
            self.inv(),
        ensures
            r@ == current_value_model(self@, sub@),
    {
        match self.find_index(&sub.user) {
            Some(i) => {
                if self.entries[i].chan.id == sub.channel_id {
                    self.entries[i].chan.record.clone()
                } else {
                    sub.last_seen.clone()
                }
            },
            None => sub.last_seen.clone(),
        }
    }

    /// One poll for a change through `sub`: yields the latest record — and
    /// only the latest — if the observed channel has published since `sub`
    /// last looked, and nothing otherwise. A caller that wants to block
    /// waits on its own notification and polls again.
    pub fn poll_change(&self, sub: &mut Subscription) -> (r: Option<Presence>)
        requires
            self.inv(),
        ensures
            final(sub)@ == poll_model(self@, old(sub)@).0,
            (r is Some) == (poll_model(self@, old(sub)@).1 is Some),
            r matches Some(p) ==> Some(p@) == poll_model(self@, old(sub)@).1,
    {
        match self.find_index(&sub.user) {
            Some(i) => {
                if self.entries[i].chan.id == sub.channel_id && self.entries[i].chan.version
                    != sub.seen_version {
                    sub.seen_version = self.entries[i].chan.version;
                    sub.last_seen = self.entries[i].chan.record.clone();
                    Some(self.entries[i].chan.record.clone())
                } else {
                    None
                }
            },
            None => None,
        }
    }
}

} // verus!
