//! The events the cache consumes, and the field patches they induce on a
//! user's record.
//!
//! A membership event patches exactly the profile fields of a record; a
//! presence event patches exactly the activity fields. The patch language
//! here is the whole interface between the event stream and a channel's
//! record, so that claim is visible in [`apply_patch`] itself.

use vstd::prelude::*;
use crate::presence::clone_opt_string;
use crate::presence::opt_str_view;
use crate::presence::Presence;
use crate::presence::PresenceState;
use crate::presence::PresenceView;
use crate::user_id::UserId;

verus! {

/// A user's membership status within the tracked room.
#[derive(Clone, Copy, PartialEq, Eq, Structural, Debug)]
pub enum MembershipState {
    Join,
    Leave,
    Invite,
    Knock,
    Ban,
}

/// How a membership event changed the sender's status, reduced to what the
/// dispatcher distinguishes: a fresh join, an accepted invitation, or
/// anything else.
#[derive(Clone, Copy, PartialEq, Eq, Structural, Debug)]
pub enum MembershipChange {
    Joined,
    InvitationAccepted,
    Other,
}

/// A membership change within the tracked room.
///
/// `state_key` is the user whose membership changed; `sender` is the user
/// whose profile fields the event carries.
pub struct MembershipEvent {
    pub state_key: UserId,
    pub sender: UserId,
    pub membership: MembershipState,
    pub change: MembershipChange,
    pub avatar_url: Option<String>,
    pub displayname: Option<String>,
}

/// The mathematical value of a [`MembershipEvent`].
pub ghost struct MembershipEventView {
    pub state_key: Seq<char>,
    pub sender: Seq<char>,
    pub membership: MembershipState,
    pub change: MembershipChange,
    pub avatar_url: Option<Seq<char>>,
    pub displayname: Option<Seq<char>>,
}

impl View for MembershipEvent {
    type V = MembershipEventView;

    open spec fn view(&self) -> MembershipEventView {
        MembershipEventView {
            state_key: self.state_key@,
            sender: self.sender@,
            membership: self.membership,
            change: self.change,
            avatar_url: opt_str_view(self.avatar_url),
            displayname: opt_str_view(self.displayname),
        }
    }
}

/// A presence change for one user, from anywhere the protocol collaborator
/// observes them.
pub struct PresenceEvent {
    pub sender: UserId,
    pub currently_active: Option<bool>,
    pub last_active_ago: Option<u128>,
    pub presence: PresenceState,
    pub status_msg: Option<String>,
}

/// The mathematical value of a [`PresenceEvent`].
pub ghost struct PresenceEventView {
    pub sender: Seq<char>,
    pub currently_active: Option<bool>,
    pub last_active_ago: Option<u128>,
    pub presence: PresenceState,
    pub status_msg: Option<Seq<char>>,
}

impl View for PresenceEvent {
    type V = PresenceEventView;

    open spec fn view(&self) -> PresenceEventView {
        PresenceEventView {
            sender: self.sender@,
            currently_active: self.currently_active,
            last_active_ago: self.last_active_ago,
            presence: self.presence,
            status_msg: opt_str_view(self.status_msg),
        }
    }
}

/// A field patch to apply to one user's record.
pub enum RecordPatch {
    /// Replaces the profile fields, as a membership join event does.
    Profile { avatar_url: Option<String>, displayname: Option<String> },
    /// Replaces the activity fields, as a presence event does.
    Activity {
        currently_active: Option<bool>,
        last_active_ago: Option<u128>,
        presence: PresenceState,
        status_msg: Option<String>,
    },
}

/// The mathematical value of a [`RecordPatch`].
pub ghost enum PatchView {
    Profile { avatar_url: Option<Seq<char>>, displayname: Option<Seq<char>> },
    Activity {
        currently_active: Option<bool>,
        last_active_ago: Option<u128>,
        presence: PresenceState,
        status_msg: Option<Seq<char>>,
    },
}

impl View for RecordPatch {
    type V = PatchView;

    open spec fn view(&self) -> PatchView {
        match self {
            RecordPatch::Profile { avatar_url, displayname } => PatchView::Profile {
                avatar_url: opt_str_view(*avatar_url),
                displayname: opt_str_view(*displayname),
            },
            RecordPatch::Activity { currently_active, last_active_ago, presence, status_msg } => {
                PatchView::Activity {
                    currently_active: *currently_active,
                    last_active_ago: *last_active_ago,
                    presence: *presence,
                    status_msg: opt_str_view(*status_msg),
                }
            },
        }
    }
}

/// The record that results from applying `p` to `r`: a profile patch
/// replaces exactly the profile fields, an activity patch exactly the
/// activity fields.
pub open spec fn apply_patch(r: PresenceView, p: PatchView) -> PresenceView {
    match p {
        PatchView::Profile { avatar_url, displayname } => PresenceView {
            avatar_url,
            displayname,
            currently_active: r.currently_active,
            last_active_ago: r.last_active_ago,
            presence: r.presence,
            status_msg: r.status_msg,
        },
        PatchView::Activity { currently_active, last_active_ago, presence, status_msg } => {
            PresenceView {
                avatar_url: r.avatar_url,
                displayname: r.displayname,
                currently_active,
                last_active_ago,
                presence,
                status_msg,
            }
        },
    }
}

/// Applies `p` to `r`, producing the record [`apply_patch`] describes.
pub fn apply_patch_exec(r: &Presence, p: &RecordPatch) -> (out: Presence)
    ensures
        out@ == apply_patch(r@, p@),
{
    match p {
        RecordPatch::Profile { avatar_url, displayname } => Presence {
            avatar_url: clone_opt_string(avatar_url),
            displayname: clone_opt_string(displayname),
            currently_active: r.currently_active,
            last_active_ago: r.last_active_ago,
            presence: r.presence,
            status_msg: clone_opt_string(&r.status_msg),
        },
        RecordPatch::Activity { currently_active, last_active_ago, presence, status_msg } => {
            Presence {
                avatar_url: clone_opt_string(&r.avatar_url),
                displayname: clone_opt_string(&r.displayname),
                currently_active: *currently_active,
                last_active_ago: *last_active_ago,
                presence: *presence,
                status_msg: clone_opt_string(status_msg),
            }
        },
    }
}

} // verus!
