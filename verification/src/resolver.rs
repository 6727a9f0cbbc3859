//! The on-miss resolution step: assembling a first [`Presence`] record from
//! an upstream membership lookup and an upstream presence lookup, and the
//! small decisions the surrounding process asks of the core while it talks
//! to upstream.
//!
//! The lookups themselves are network-bound and live with the caller; this
//! module takes their outcomes as plain values and is verified for every
//! outcome.

use vstd::prelude::*;
use crate::events::MembershipState;
use crate::presence::clone_opt_string;
use crate::presence::opt_str_view;
use crate::presence::Presence;
use crate::presence::PresenceError;
use crate::presence::PresenceState;
use crate::presence::PresenceView;
use crate::user_id::UserId;

verus! {

/// What an upstream membership lookup reported for one user: their
/// membership status and their profile fields.
pub struct MemberInfo {
    pub membership: MembershipState,
    pub avatar_url: Option<String>,
    pub displayname: Option<String>,
}

/// The mathematical value of a [`MemberInfo`].
pub ghost struct MemberInfoView {
    pub membership: MembershipState,
    pub avatar_url: Option<Seq<char>>,
    pub displayname: Option<Seq<char>>,
}

impl View for MemberInfo {
    type V = MemberInfoView;

    open spec fn view(&self) -> MemberInfoView {
        MemberInfoView {
            membership: self.membership,
            avatar_url: opt_str_view(self.avatar_url),
            displayname: opt_str_view(self.displayname),
        }
    }
}

/// What an upstream presence lookup reported for one user.
pub struct PresenceData {
    pub currently_active: Option<bool>,
    pub last_active_ago: Option<u128>,
    pub presence: PresenceState,
    pub status_msg: Option<String>,
}

/// The mathematical value of a [`PresenceData`].
pub ghost struct PresenceDataView {
    pub currently_active: Option<bool>,
    pub last_active_ago: Option<u128>,
    pub presence: PresenceState,
    pub status_msg: Option<Seq<char>>,
}

impl View for PresenceData {
    type V = PresenceDataView;

    open spec fn view(&self) -> PresenceDataView {
        PresenceDataView {
            currently_active: self.currently_active,
            last_active_ago: self.last_active_ago,
            presence: self.presence,
            status_msg: opt_str_view(self.status_msg),
        }
    }
}

/// The spec-level image of an optional membership lookup result.
pub open spec fn opt_member_view(m: Option<&MemberInfo>) -> Option<MemberInfoView> {
    match m {
        Some(mi) => Some(mi@),
        None => None,
    }
}

/// The spec-level image of an optional presence lookup result.
pub open spec fn opt_presence_view(p: Option<&PresenceData>) -> Option<PresenceDataView> {
    match p {
        Some(pd) => Some(pd@),
        None => None,
    }
}

/// Whether a membership lookup result shows a joined room member.
pub open spec fn is_joined(m: Option<MemberInfoView>) -> bool {
    match m {
        Some(mi) => mi.membership == MembershipState::Join,
        None => false,
    }
}

/// The record assembled from a membership profile and a presence lookup:
/// profile fields from the former, activity fields from the latter.
pub open spec fn resolved_record(m: MemberInfoView, p: PresenceDataView) -> PresenceView {
    PresenceView {
        avatar_url: m.avatar_url,
        displayname: m.displayname,
        currently_active: p.currently_active,
        last_active_ago: p.last_active_ago,
        presence: p.presence,
        status_msg: p.status_msg,
    }
}

/// Builds the initial record for `user` from the outcomes of the two
/// upstream lookups.
///
/// `member` is what the membership lookup reported (`None`: the user is not
/// in the room at all); `presence` is what the presence lookup reported
/// (`None`: the lookup failed, or upstream does not expose presence).
/// Fails with `NotTracked` exactly when the user is not a joined member,
/// with `PresenceUnavailable` exactly when they are but presence could not
/// be obtained, and succeeds otherwise.
pub fn resolve_presence(
    user: &UserId,
    member: Option<&MemberInfo>,
    presence: Option<&PresenceData>,
) -> (r: Result<Presence, PresenceError>)
    ensures
        !is_joined(opt_member_view(member)) ==> (r matches Err(e)
            && (e matches PresenceError::NotTracked(u) && u@ == user@)),
        is_joined(opt_member_view(member)) && presence is None ==> (r matches Err(e)
            && (e matches PresenceError::PresenceUnavailable(u) && u@ == user@)),
        (r is Ok) == (is_joined(opt_member_view(member)) && presence is Some),
        r matches Ok(rec) ==> rec@ == resolved_record(
            opt_member_view(member).unwrap(),
            opt_presence_view(presence).unwrap(),
        ),
{
    let joined = match member {
        Some(mi) => mi.membership == MembershipState::Join,
        None => false,
    };
    if !joined {
        return Err(PresenceError::NotTracked(user.clone()));
    }
    let mi = member.unwrap();
    match presence {
        None => Err(PresenceError::PresenceUnavailable(user.clone())),
        Some(pd) => Ok(
            Presence {
                avatar_url: clone_opt_string(&mi.avatar_url),
                displayname: clone_opt_string(&mi.displayname),
                currently_active: pd.currently_active,
                last_active_ago: pd.last_active_ago,
                presence: pd.presence,
                status_msg: clone_opt_string(&pd.status_msg),
            },
        ),
    }
}

/// What the process should do, on a user's fresh join, about the
/// best-effort "presence unavailable" notice.
///
/// The notice itself is outside the core; this fixes the decision: nothing
/// when the user's presence is available, a direct-message room created
/// only when none exists, and the notice sent only once per user.
#[derive(Clone, Copy, PartialEq, Eq, Structural, Debug)]
pub struct NotificationPlan {
    /// A direct-message room with the user must be created first.
    pub create_dm: bool,
    /// The notice is to be sent, and the per-user flag recorded.
    pub send_notice: bool,
}

/// Decides the notification steps from what the process has already
/// observed: whether the user's presence lookup succeeded, whether a
/// direct-message room with them exists, and whether they were already
/// notified once.
pub fn notification_plan(presence_available: bool, has_dm_room: bool, already_notified: bool) -> (p:
    NotificationPlan)
    ensures
        p.create_dm == (!presence_available && !has_dm_room),
        p.send_notice == (!presence_available && !already_notified),
{
    NotificationPlan {
        create_dm: !presence_available && !has_dm_room,
        send_notice: !presence_available && !already_notified,
    }
}

/// Whether `targets` makes a room a direct-message room with exactly the
/// user `u`: one target, and it is `u`.
pub open spec fn is_dm_with(targets: Seq<UserId>, u: Seq<char>) -> bool {
    targets.len() == 1 && targets[0]@ == u
}

/// Finds the first room, given each room's direct-message targets, that is
/// a direct-message room with exactly `user`.
pub fn find_dm_room(rooms: &Vec<Vec<UserId>>, user: &UserId) -> (r: Option<usize>)
    ensures
        r matches Some(i) ==> i < rooms@.len() && is_dm_with(rooms@[i as int]@, user@)
            && forall|j: int| 0 <= j < i ==> !is_dm_with(rooms@[j]@, user@),
        r is None ==> forall|j: int| 0 <= j < rooms@.len() ==> !is_dm_with(rooms@[j]@, user@),
{
    let n = rooms.len();
    let mut i: usize = 0;
    while i < n
        invariant
            0 <= i <= n,
            n == rooms@.len(),
            forall|j: int| 0 <= j < i ==> !is_dm_with(rooms@[j]@, user@),
        decreases n - i,
    {
        let targets = &rooms[i];
        if targets.len() == 1 && targets[0].eq(user) {
            return Some(i);
        }
        i += 1;
    }
    None
}

} // verus!
