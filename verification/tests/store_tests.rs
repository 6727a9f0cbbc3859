use mdotp::events::MembershipChange;
use mdotp::events::MembershipEvent;
use mdotp::events::MembershipState;
use mdotp::events::PresenceEvent;
use mdotp::events::RecordPatch;
use mdotp::presence::PresenceError;
use mdotp::presence::PresenceState;
use mdotp::resolver::MemberInfo;
use mdotp::resolver::PresenceData;
use mdotp::store::Presences;
use mdotp::user_id::UserId;

fn alice() -> UserId {
    UserId::parse("@alice:example.org").unwrap()
}

fn bob() -> UserId {
    UserId::parse("@bob:example.org").unwrap()
}

fn joined_member(displayname: &str) -> MemberInfo {
    MemberInfo {
        membership: MembershipState::Join,
        avatar_url: None,
        displayname: Some(String::from(displayname)),
    }
}

fn online_data() -> PresenceData {
    PresenceData {
        currently_active: Some(true),
        last_active_ago: Some(2000),
        presence: PresenceState::Online,
        status_msg: None,
    }
}

fn offline_data() -> PresenceData {
    PresenceData {
        currently_active: Some(false),
        last_active_ago: None,
        presence: PresenceState::Offline,
        status_msg: Some(String::from("away")),
    }
}

fn presence_event(sender: UserId, data: &PresenceData) -> PresenceEvent {
    PresenceEvent {
        sender,
        currently_active: data.currently_active,
        last_active_ago: data.last_active_ago,
        presence: data.presence,
        status_msg: data.status_msg.clone(),
    }
}

#[test]
fn empty_store_tracks_nobody() {
    let store = Presences::new();
    assert!(!store.contains_user(&alice()));
    assert_eq!(store.len(), 0);
}

#[test]
fn events_never_create_entries() {
    let mut store = Presences::new();
    store.handle_presence_event(&presence_event(alice(), &online_data()));
    let join = MembershipEvent {
        state_key: alice(),
        sender: alice(),
        membership: MembershipState::Join,
        change: MembershipChange::Joined,
        avatar_url: None,
        displayname: Some(String::from("Alice")),
    };
    store.handle_membership_event(&join);
    assert!(!store.contains_user(&alice()));
    assert_eq!(store.len(), 0);
}

#[test]
fn not_tracked_failure_is_idempotent() {
    let mut store = Presences::new();
    let r = store.presence_for(&alice(), None, Some(&online_data()));
    assert!(matches!(r, Err(PresenceError::NotTracked(_))));
    assert!(!store.contains_user(&alice()));
}

#[test]
fn presence_unavailable_then_successful_retry() {
    let mut store = Presences::new();
    let member = joined_member("Alice");
    let r = store.presence_for(&alice(), Some(&member), None);
    assert!(matches!(r, Err(PresenceError::PresenceUnavailable(_))));
    assert!(!store.contains_user(&alice()));

    let sub = store.presence_for(&alice(), Some(&member), Some(&online_data())).unwrap();
    assert!(store.contains_user(&alice()));
    let rec = store.current_value(&sub);
    assert_eq!(rec.displayname, Some(String::from("Alice")));
    assert_eq!(rec.currently_active, Some(true));
    assert!(rec.presence == PresenceState::Online);
}

#[test]
fn cache_hit_skips_resolution_and_shares_the_channel() {
    let mut store = Presences::new();
    let sub1 = store
        .presence_for(&alice(), Some(&joined_member("Alice")), Some(&online_data()))
        .unwrap();
    // The entry exists, so the request succeeds even though the resolver
    // inputs would now fail: upstream is not consulted again.
    let sub2 = store.presence_for(&alice(), None, None).unwrap();

    // Both subscriptions observe the same future update.
    store.handle_presence_event(&presence_event(alice(), &offline_data()));
    let mut sub1 = sub1;
    let mut sub2 = sub2;
    let seen1 = store.poll_change(&mut sub1).unwrap();
    let seen2 = store.poll_change(&mut sub2).unwrap();
    assert!(seen1.presence == PresenceState::Offline);
    assert!(seen2.presence == PresenceState::Offline);
    assert_eq!(seen1.status_msg, Some(String::from("away")));
    assert_eq!(seen2.status_msg, Some(String::from("away")));
}

#[test]
fn presence_event_patches_only_activity_fields() {
    let mut store = Presences::new();
    let sub = store
        .presence_for(&alice(), Some(&joined_member("Alice")), Some(&online_data()))
        .unwrap();
    store.handle_presence_event(&presence_event(alice(), &offline_data()));
    let rec = store.current_value(&sub);
    // activity fields follow the event
    assert_eq!(rec.currently_active, Some(false));
    assert_eq!(rec.last_active_ago, None);
    assert!(rec.presence == PresenceState::Offline);
    assert_eq!(rec.status_msg, Some(String::from("away")));
    // profile fields are untouched
    assert_eq!(rec.displayname, Some(String::from("Alice")));
    assert_eq!(rec.avatar_url, None);
}

#[test]
fn join_event_patches_only_profile_fields() {
    let mut store = Presences::new();
    let sub = store
        .presence_for(&alice(), Some(&joined_member("Alice")), Some(&online_data()))
        .unwrap();
    let join = MembershipEvent {
        state_key: alice(),
        sender: alice(),
        membership: MembershipState::Join,
        change: MembershipChange::Other,
        avatar_url: Some(String::from("mxc://example.org/new")),
        displayname: Some(String::from("Alice Renamed")),
    };
    store.handle_membership_event(&join);
    let rec = store.current_value(&sub);
    // profile fields follow the event
    assert_eq!(rec.avatar_url, Some(String::from("mxc://example.org/new")));
    assert_eq!(rec.displayname, Some(String::from("Alice Renamed")));
    // activity fields are untouched
    assert_eq!(rec.currently_active, Some(true));
    assert_eq!(rec.last_active_ago, Some(2000));
    assert!(rec.presence == PresenceState::Online);
}

#[test]
fn join_event_reports_who_to_check() {
    let mut store = Presences::new();
    let join = MembershipEvent {
        state_key: bob(),
        sender: bob(),
        membership: MembershipState::Join,
        change: MembershipChange::Joined,
        avatar_url: None,
        displayname: None,
    };
    let notify = store.handle_membership_event(&join);
    assert_eq!(notify.map(|u| String::from(u.as_str())), Some(String::from("@bob:example.org")));

    let rename = MembershipEvent {
        state_key: bob(),
        sender: bob(),
        membership: MembershipState::Join,
        change: MembershipChange::Other,
        avatar_url: None,
        displayname: None,
    };
    assert!(store.handle_membership_event(&rename).is_none());
}

#[test]
fn events_for_other_users_leave_a_record_alone() {
    let mut store = Presences::new();
    let sub = store
        .presence_for(&alice(), Some(&joined_member("Alice")), Some(&online_data()))
        .unwrap();
    store.handle_presence_event(&presence_event(bob(), &offline_data()));
    let rec = store.current_value(&sub);
    assert!(rec.presence == PresenceState::Online);
    assert_eq!(rec.currently_active, Some(true));
}

#[test]
fn leave_removes_and_next_request_re_resolves() {
    let mut store = Presences::new();
    let mut old_sub = store
        .presence_for(&alice(), Some(&joined_member("Alice")), Some(&online_data()))
        .unwrap();
    let leave = MembershipEvent {
        state_key: alice(),
        sender: alice(),
        membership: MembershipState::Leave,
        change: MembershipChange::Other,
        avatar_url: None,
        displayname: None,
    };
    store.handle_membership_event(&leave);
    assert!(!store.contains_user(&alice()));

    // The next request consults upstream afresh rather than serving stale
    // data: the record is built from the new lookups.
    let sub = store
        .presence_for(&alice(), Some(&joined_member("Alice the Second")), Some(&offline_data()))
        .unwrap();
    let rec = store.current_value(&sub);
    assert_eq!(rec.displayname, Some(String::from("Alice the Second")));
    assert!(rec.presence == PresenceState::Offline);

    // The old subscription observes nothing from the new channel.
    store.handle_presence_event(&presence_event(alice(), &online_data()));
    assert!(store.poll_change(&mut old_sub).is_none());
}

#[test]
fn removal_is_idempotent_and_keeps_last_seen() {
    let mut store = Presences::new();
    let sub = store
        .presence_for(&alice(), Some(&joined_member("Alice")), Some(&online_data()))
        .unwrap();
    store.remove_entry(&alice());
    store.remove_entry(&alice());
    assert!(!store.contains_user(&alice()));
    let rec = store.current_value(&sub);
    assert_eq!(rec.displayname, Some(String::from("Alice")));
    assert!(rec.presence == PresenceState::Online);
}

#[test]
fn untracked_update_is_dropped() {
    let mut store = Presences::new();
    let patch = RecordPatch::Activity {
        currently_active: Some(true),
        last_active_ago: None,
        presence: PresenceState::Online,
        status_msg: None,
    };
    store.apply_update(&alice(), &patch);
    assert!(!store.contains_user(&alice()));
}

#[test]
fn missed_publishes_observe_only_the_latest() {
    let mut store = Presences::new();
    let mut sub = store
        .presence_for(&alice(), Some(&joined_member("Alice")), Some(&online_data()))
        .unwrap();
    // Two publishes go by without the subscriber looking.
    store.handle_presence_event(&presence_event(alice(), &offline_data()));
    store.handle_presence_event(&presence_event(alice(), &online_data()));
    // One wake: only the final value, never the intermediate one.
    let seen = store.poll_change(&mut sub).unwrap();
    assert!(seen.presence == PresenceState::Online);
    assert_eq!(seen.currently_active, Some(true));
    // And nothing further until the next publish.
    assert!(store.poll_change(&mut sub).is_none());
}

#[test]
fn subscribe_existing_never_creates() {
    let mut store = Presences::new();
    assert!(store.subscribe_existing(&alice()).is_none());
    assert!(!store.contains_user(&alice()));
    store
        .presence_for(&alice(), Some(&joined_member("Alice")), Some(&online_data()))
        .unwrap();
    let sub = store.subscribe_existing(&alice()).unwrap();
    assert_eq!(sub.user().as_str(), "@alice:example.org");
}

#[test]
fn alice_scenario() {
    // Alice joins the room while her homeserver publishes no presence.
    let mut store = Presences::new();
    let member = joined_member("Alice");
    let r = store.presence_for(&alice(), Some(&member), None);
    assert!(matches!(r, Err(PresenceError::PresenceUnavailable(_))));

    // Upstream starts reporting her as online and active; the retried
    // request succeeds with the membership profile it knew all along.
    let upstream = PresenceData {
        currently_active: Some(true),
        last_active_ago: None,
        presence: PresenceState::Online,
        status_msg: None,
    };
    let sub = store.presence_for(&alice(), Some(&member), Some(&upstream)).unwrap();
    let rec = store.current_value(&sub);
    assert!(rec.presence == PresenceState::Online);
    assert_eq!(rec.currently_active, Some(true));
    assert_eq!(rec.displayname, Some(String::from("Alice")));
}
