//! The presence snapshot kept for one user, and the error taxonomy of the
//! cache.

use vstd::prelude::*;
use vstd::string::StringExecFns;
use crate::user_id::UserId;

verus! {

/// Protocol-level availability of a user.
#[derive(Clone, Copy, PartialEq, Eq, Structural, Debug)]
pub enum PresenceState {
    Online,
    Offline,
    Unavailable,
}

/// The spec-level image of an optional string.
pub open spec fn opt_str_view(o: Option<String>) -> Option<Seq<char>> {
    match o {
        Some(s) => Some(s@),
        None => None,
    }
}

/// The current known presence snapshot for one user.
///
/// `presence` is always present; every other field is best-effort and absent
/// when upstream omits it. `last_active_ago` is an age in milliseconds,
/// relative to the moment the snapshot was received.
pub struct Presence {
    /// The current avatar URL for this user.
    pub avatar_url: Option<String>,
    /// The current display name for this user.
    pub displayname: Option<String>,
    /// Whether or not the user is currently active.
    pub currently_active: Option<bool>,
    /// The last time since this user performed some action, in milliseconds.
    pub last_active_ago: Option<u128>,
    /// The presence state for this user.
    pub presence: PresenceState,
    /// An optional description to accompany the presence.
    pub status_msg: Option<String>,
}

/// The mathematical value of a [`Presence`].
pub ghost struct PresenceView {
    pub avatar_url: Option<Seq<char>>,
    pub displayname: Option<Seq<char>>,
    pub currently_active: Option<bool>,
    pub last_active_ago: Option<u128>,
    pub presence: PresenceState,
    pub status_msg: Option<Seq<char>>,
}

impl View for Presence {
    type V = PresenceView;

    open spec fn view(&self) -> PresenceView {
        PresenceView {
            avatar_url: opt_str_view(self.avatar_url),
            displayname: opt_str_view(self.displayname),
            currently_active: self.currently_active,
            last_active_ago: self.last_active_ago,
            presence: self.presence,
            status_msg: opt_str_view(self.status_msg),
        }
    }
}

/// Copies an optional string.
pub fn clone_opt_string(o: &Option<String>) -> (r: Option<String>)
    ensures
        r == *o,
{
    match o {
        Some(s) => Some(s.clone()),
        None => None,
    }
}

impl Clone for Presence {
    fn clone(&self) -> (r: Presence)
        ensures
            r == *self,
    {
        Presence {
            avatar_url: clone_opt_string(&self.avatar_url),
            displayname: clone_opt_string(&self.displayname),
            currently_active: self.currently_active,
            last_active_ago: self.last_active_ago,
            presence: self.presence,
            status_msg: clone_opt_string(&self.status_msg),
        }
    }
}

/// Why a subscription could not be produced for a user.
#[derive(Debug)]
pub enum PresenceError {
    /// The user is not a joined member of the tracked room.
    NotTracked(UserId),
    /// The user is a member, but upstream will not serve presence for them.
    PresenceUnavailable(UserId),
    /// An unexpected failure of the protocol collaborator, with a
    /// description supplied by the caller that observed it.
    InternalError(String),
}

impl PresenceError {
    /// The machine-readable code of this error, as it appears on the wire.
    pub fn code(&self) -> (r: &'static str)
        ensures
            (self matches PresenceError::NotTracked(_)) ==> r@ == "not_tracked"@,
            (self matches PresenceError::PresenceUnavailable(_)) ==> r@ == "presence_unavailable"@,
            (self matches PresenceError::InternalError(_)) ==> r@ == "internal_error"@,
    {
        match self {
            PresenceError::NotTracked(_) => "not_tracked",
            PresenceError::PresenceUnavailable(_) => "presence_unavailable",
            PresenceError::InternalError(_) => "internal_error",
        }
    }

    /// The human-readable description of this error.
    pub fn message(&self) -> (r: String)
        ensures
            (self matches PresenceError::NotTracked(_)) ==> r@ == "this user is not tracked"@,
            (self matches PresenceError::PresenceUnavailable(_)) ==> r@
                == "presence information is unavailable for this user"@,
            (self matches PresenceError::InternalError(_)) ==> r@ == "internal protocol error"@,
    {
        match self {
            PresenceError::NotTracked(_) => String::from_str("this user is not tracked"),
            PresenceError::PresenceUnavailable(_) => String::from_str(
                "presence information is unavailable for this user",
            ),
            PresenceError::InternalError(_) => String::from_str("internal protocol error"),
        }
    }
}

} // verus!
