//! The behavioural laws of the cache, proved over the store model.
//!
//! Each law is stated against the spec-level transitions of
//! [`crate::store`], which every executable operation is proved to follow,
//! so the laws carry over to any run of the executable store.

use vstd::prelude::*;
use crate::channel::SubscriptionView;
use crate::events::apply_patch;
use crate::events::MembershipEventView;
use crate::events::MembershipState;
use crate::events::PatchView;
use crate::events::PresenceEventView;
use crate::presence::PresenceView;
use crate::resolver::resolved_record;
use crate::resolver::MemberInfoView;
use crate::resolver::PresenceDataView;
use crate::store::apply_update_model;
use crate::store::create_entry_model;
use crate::store::membership_step;
use crate::store::poll_model;
use crate::store::presence_for_model;
use crate::store::presence_step;
use crate::store::remove_entry_model;
use crate::store::store_wf;
use crate::store::sub_live;
use crate::store::StoreView;
use crate::store::SubscribeOutcome;

verus! {

/// Event traffic alone never creates an entry: a user the store does not
/// hold is still not held after any membership or presence event, even one
/// about that user. Entries come only from subscription requests.
pub proof fn lemma_events_never_create(
    s: StoreView,
    ev_m: MembershipEventView,
    ev_p: PresenceEventView,
    u: Seq<char>,
)
    requires
        !s.chans.contains_key(u),
    ensures
        !membership_step(s, ev_m).chans.contains_key(u),
        !presence_step(s, ev_p).chans.contains_key(u),
{
}

/// A request for a user who is not a joined room member fails as not
/// tracked and leaves the store exactly as it was.
pub proof fn lemma_not_tracked_is_idempotent(
    s: StoreView,
    u: Seq<char>,
    m: Option<MemberInfoView>,
    p: Option<PresenceDataView>,
)
    requires
        !s.chans.contains_key(u),
        match m {
            Some(mi) => mi.membership != MembershipState::Join,
            None => true,
        },
    ensures
        presence_for_model(s, u, m, p).0 == s,
        presence_for_model(s, u, m, p).1 is NotTracked,
{
}

/// A failed resolution is idempotent, and a retry succeeds once upstream
/// serves presence: while a joined member's presence lookup fails, the
/// request reports the presence as unavailable and leaves the store as it
/// was; a retry that finds presence data seeds the correct record.
pub proof fn lemma_retry_after_presence_available(
    s: StoreView,
    u: Seq<char>,
    m: MemberInfoView,
    p: PresenceDataView,
)
    requires
        !s.chans.contains_key(u),
        m.membership == MembershipState::Join,
    ensures
        presence_for_model(s, u, Some(m), None).0 == s,
        presence_for_model(s, u, Some(m), None).1 is PresenceUnavailable,
        presence_for_model(s, u, Some(m), Some(p)).0 == create_entry_model(
            s,
            u,
            resolved_record(m, p),
        ),
        presence_for_model(s, u, Some(m), Some(p)).1 matches SubscribeOutcome::Subscribed(sv)
            && sv.user == u && sv.last_seen == resolved_record(m, p),
{
}

/// After a successful subscription request, any further request for the
/// same user leaves the store untouched — the resolver's outcomes are never
/// consulted — and subscribes to the same channel, so both subscriptions
/// observe the same future updates.
pub proof fn lemma_cache_hit_after_success(
    s: StoreView,
    u: Seq<char>,
    m: MemberInfoView,
    p: PresenceDataView,
    m2: Option<MemberInfoView>,
    p2: Option<PresenceDataView>,
    q: PatchView,
)
    requires
        !s.chans.contains_key(u),
        m.membership == MembershipState::Join,
    ensures
        ({
            let (s1, out1) = presence_for_model(s, u, Some(m), Some(p));
            let (s2, out2) = presence_for_model(s1, u, m2, p2);
            &&& s2 == s1
            &&& out1 matches SubscribeOutcome::Subscribed(sv1)
                && (out2 matches SubscribeOutcome::Subscribed(sv2)
                && sv2.channel_id == sv1.channel_id && sv2.user == u && ({
                // one further update is observed identically through both
                let s3 = apply_update_model(s2, u, q);
                &&& poll_model(s3, sv1).1 == Some(s3.chans[u].record)
                &&& poll_model(s3, sv2).1 == Some(s3.chans[u].record)
            }))
        }),
{
}

/// An update for `u` touches exactly `u`: no entry appears or disappears,
/// every other user's channel is untouched, and `u`'s record becomes the
/// patched record.
pub proof fn lemma_update_touches_exactly_target(
    s: StoreView,
    u: Seq<char>,
    p: PatchView,
    v: Seq<char>,
)
    ensures
        apply_update_model(s, u, p).chans.contains_key(v) == s.chans.contains_key(v),
        v != u && s.chans.contains_key(v) ==> apply_update_model(s, u, p).chans[v] == s.chans[v],
        s.chans.contains_key(u) ==> apply_update_model(s, u, p).chans[u].record == apply_patch(
            s.chans[u].record,
            p,
        ),
{
}

/// A profile patch replaces exactly the profile fields and an activity
/// patch exactly the activity fields; each leaves the other group of
/// fields untouched.
pub proof fn lemma_patch_field_effects(r: PresenceView, p: PatchView)
    ensures
        p is Profile ==> {
            let r2 = apply_patch(r, p);
            &&& r2.currently_active == r.currently_active
            &&& r2.last_active_ago == r.last_active_ago
            &&& r2.presence == r.presence
            &&& r2.status_msg == r.status_msg
        },
        p is Activity ==> {
            let r2 = apply_patch(r, p);
            &&& r2.avatar_url == r.avatar_url
            &&& r2.displayname == r.displayname
        },
{
}

/// A leave event removes the entry, and the next subscription request
/// resolves afresh: its outcome is decided by the new upstream lookups,
/// any channel it creates is one no earlier subscription observes, and an
/// earlier subscription never sees the new channel's updates.
pub proof fn lemma_leave_then_fresh_resolution(
    s: StoreView,
    u: Seq<char>,
    sub: SubscriptionView,
    m: Option<MemberInfoView>,
    p: Option<PresenceDataView>,
)
    requires
        store_wf(s),
        s.chans.contains_key(u),
        sub.user == u,
        sub.channel_id == s.chans[u].id,
    ensures
        !remove_entry_model(s, u).chans.contains_key(u),
        ({
            let (s2, out2) = presence_for_model(remove_entry_model(s, u), u, m, p);
            &&& out2 matches SubscribeOutcome::Subscribed(sv2) ==> sv2.channel_id
                != sub.channel_id && !sub_live(s2, sub)
            &&& match (m, p) {
                (Some(mi), Some(pd)) => mi.membership == MembershipState::Join ==> (out2 matches
                SubscribeOutcome::Subscribed(sv2) && sv2.last_seen == resolved_record(mi, pd)),
                _ => true,
            }
        }),
{
}

/// A subscriber that misses any number of publishes observes only the
/// latest value: after two further publishes, one poll yields exactly the
/// final record — never the intermediate one — and a second poll yields
/// nothing.
pub proof fn lemma_missed_publishes_latest_only(
    s: StoreView,
    u: Seq<char>,
    sub: SubscriptionView,
    p1: PatchView,
    p2: PatchView,
)
    requires
        s.chans.contains_key(u),
        sub.user == u,
        sub.channel_id == s.chans[u].id,
        sub.seen_version == s.chans[u].version,
    ensures
        ({
            let s2 = apply_update_model(apply_update_model(s, u, p1), u, p2);
            let (sub2, got) = poll_model(s2, sub);
            &&& got == Some(apply_patch(apply_patch(s.chans[u].record, p1), p2))
            &&& sub2.seen_version == s2.chans[u].version
            &&& poll_model(s2, sub2).1 is None
        }),
{
}

} // verus!
