//! Messages that Twitch's EventSub websocket delivers, as plain data.
pub mod event;
pub mod payload;

use vstd::prelude::*;

verus! {

/// Declares `serde_json::Value`: a JSON document whose shape depends on the
/// message that carries it. Nothing is claimed of it; the library only hands
/// it on.
#[verifier::external_type_specification]
#[verifier::external_body]
pub struct ExJsonValue(serde_json::Value);

/// One message of the EventSub websocket.
pub struct TwitchMessage {
    pub metadata: Metadata,
    pub payload: serde_json::Value,
}

/// The metadata of an EventSub message.
#[derive(Clone, Copy, Debug)]
pub struct Metadata {
    pub message_type: MessageType,
}

/// The kinds of EventSub websocket messages.
#[derive(Clone, Copy, Debug, PartialEq, Eq, Structural)]
pub enum MessageType {
    SessionWelcome,
    SessionKeepalive,
    SessionReconnect,
    Notification,
}

/// The broadcaster fields of an event (`broadcaster_user_*` on the wire).
#[derive(Clone, Debug)]
pub struct BroadcasterUserInfo {
    pub id: String,
    pub login: String,
    pub name: String,
}

/// The user fields of an event (`user_*` on the wire).
#[derive(Clone, Debug)]
pub struct UserInfo {
    pub id: String,
    pub login: String,
    pub name: String,
}

impl From<BroadcasterUserInfo> for UserInfo {
    fn from(val: BroadcasterUserInfo) -> (r: UserInfo) {
        UserInfo { id: val.id, login: val.login, name: val.name }
    }
}

impl vstd::std_specs::convert::FromSpecImpl<BroadcasterUserInfo> for UserInfo {
    open spec fn obeys_from_spec() -> bool {
        true
    }

    open spec fn from_spec(val: BroadcasterUserInfo) -> UserInfo {
        UserInfo { id: val.id, login: val.login, name: val.name }
    }
}

} // verus!
