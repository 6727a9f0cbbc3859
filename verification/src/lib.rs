//! Latest-value presence cache for a single tracked chat room.
//!
//! The crate models the core of a presence bridge: a store that maps user
//! identifiers to latest-value channels, an event dispatcher that keeps the
//! channels current as membership and presence notifications arrive, and a
//! resolver that seeds a channel from an upstream membership and presence
//! lookup. All state transitions are specified against a mathematical model
//! of the store, and the behavioural laws of the cache are proved in
//! [`laws`].
//!
//! The surrounding process supplies what the core deliberately leaves out:
//! transport, event delivery and suspension. Each public operation here is a
//! single synchronous step; a caller that wants to wait for a change performs
//! its own waiting and re-polls.

pub mod api;
pub mod channel;
pub mod events;
pub mod laws;
pub mod presence;
pub mod resolver;
pub mod store;
pub mod user_id;

pub use channel::Subscription;
pub use channel::UserChannel;
pub use events::MembershipEvent;
pub use events::PresenceEvent;
pub use events::RecordPatch;
pub use presence::Presence;
pub use presence::PresenceError;
pub use presence::PresenceState;
pub use user_id::UserId;
