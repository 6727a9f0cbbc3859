use mdotp::channel::UserChannel;
use mdotp::events::RecordPatch;
use mdotp::presence::Presence;
use mdotp::presence::PresenceState;
use mdotp::user_id::UserId;

fn alice() -> UserId {
    UserId::parse("@alice:example.org").unwrap()
}

fn online_record() -> Presence {
    Presence {
        avatar_url: None,
        displayname: Some(String::from("Alice")),
        currently_active: Some(true),
        last_active_ago: Some(100),
        presence: PresenceState::Online,
        status_msg: None,
    }
}

#[test]
fn fresh_subscription_sees_the_seeded_record() {
    let chan = UserChannel::new(7, online_record());
    let sub = chan.subscribe(alice());
    assert_eq!(sub.user().as_str(), "@alice:example.org");
    let seen = sub.last_seen();
    assert_eq!(seen.displayname, Some(String::from("Alice")));
    assert!(seen.presence == PresenceState::Online);
}

#[test]
fn publish_replaces_the_record_wholesale() {
    let mut chan = UserChannel::new(7, online_record());
    let replacement = Presence {
        avatar_url: Some(String::from("mxc://example.org/xyz")),
        displayname: None,
        currently_active: Some(false),
        last_active_ago: None,
        presence: PresenceState::Offline,
        status_msg: Some(String::from("gone")),
    };
    chan.publish(replacement);
    let seen = chan.subscribe(alice());
    let seen = seen.last_seen();
    assert_eq!(seen.avatar_url, Some(String::from("mxc://example.org/xyz")));
    assert_eq!(seen.displayname, None);
    assert!(seen.presence == PresenceState::Offline);
    assert_eq!(seen.status_msg, Some(String::from("gone")));
}

#[test]
fn modify_patches_the_current_record() {
    let mut chan = UserChannel::new(7, online_record());
    chan.modify(&RecordPatch::Profile {
        avatar_url: Some(String::from("mxc://example.org/pic")),
        displayname: Some(String::from("Alice Lidell")),
    });
    let sub = chan.subscribe(alice());
    let seen = sub.last_seen();
    // profile fields replaced, activity fields kept
    assert_eq!(seen.avatar_url, Some(String::from("mxc://example.org/pic")));
    assert_eq!(seen.displayname, Some(String::from("Alice Lidell")));
    assert_eq!(seen.currently_active, Some(true));
    assert!(seen.presence == PresenceState::Online);
}
