//! Payloads of EventSub messages.
use vstd::prelude::*;

verus! {

/// The payload of a `session_welcome` message.
#[derive(Clone, Debug)]
pub struct SessionWelcome {
    pub session: SessionWelcomeSession,
}

/// The session that a welcome message opens.
#[derive(Clone, Debug)]
pub struct SessionWelcomeSession {
    pub id: String,
}

/// The payload of a `notification` message: the subscription it belongs to
/// and the event, whose shape depends on the subscription's type.
pub struct Notification {
    pub subscription: NotificationSubscription,
    pub event: serde_json::Value,
}

/// The subscription of a notification (`type` on the wire).
#[derive(Clone, Debug)]
pub struct NotificationSubscription {
    pub subscription_type: String,
}

} // verus!
