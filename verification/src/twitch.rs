//! Requests to the Twitch Helix API: EventSub subscriptions and chat messages.
use vstd::prelude::*;
use crate::text::join_with;

verus! {

/// The body of a request that creates an EventSub subscription.
#[derive(Clone, Debug)]
pub struct CreateEventSubSubscription<Condition> {
    /// The subscription's type (`type` on the wire).
    pub subscription_type: String,
    pub version: String,
    pub condition: Condition,
    pub transport: Transport,
}

/// How EventSub delivers the events of a subscription (`method` on the wire).
#[derive(Clone, Debug)]
pub enum Transport {
    Websocket { session_id: String },
}

/// The condition of a subscription about one broadcaster and one user.
#[derive(Clone, Debug)]
pub struct BroadcasterAndUserCondition {
    pub broadcaster_user_id: String,
    pub user_id: String,
}

/// The condition of a subscription about one broadcaster.
#[derive(Clone, Debug)]
pub struct BroadcasterCondition {
    pub broadcaster_user_id: String,
}

/// The body of a request that posts a chat message.
#[derive(Clone, Debug)]
pub struct SendChatMessage {
    pub broadcaster_id: String,
    pub sender_id: String,
    pub message: String,
    pub reply_parent_message_id: Option<String>,
}

/// The status with which Helix accepts a new subscription (202 Accepted).
pub const SUBSCRIPTION_ACCEPTED: u16 = 202;

/// The status with which Helix answers a successful call (200 OK).
pub const CALL_SUCCEEDED: u16 = 200;

/// The subscription type of chat messages.
pub open spec fn chat_message_type() -> Seq<char> {
    "channel.chat.message"@
}

/// The subscription type of channel point redemptions.
pub open spec fn redemption_type() -> Seq<char> {
    "channel.channel_points_custom_reward_redemption.add"@
}

impl<Condition> CreateEventSubSubscription<Condition> {
    /// A subscription of the given type, version and condition, delivered
    /// over the websocket session `session_id`.
    pub fn new(subscription_type: &str, version: &str, condition: Condition, session_id: &String) -> (r: Self)
        ensures
            r.subscription_type@ == subscription_type@,
            r.version@ == version@,
            r.condition == condition,
            r.transport == (Transport::Websocket { session_id: *session_id }),
    {
        CreateEventSubSubscription {
            subscription_type: String::from_str(subscription_type),
            version: String::from_str(version),
            condition,
            transport: Transport::Websocket { session_id: session_id.clone() },
        }
    }
}

/// The subscriptions the bot makes once a session is open: chat messages read
/// by the bot's user in the broadcaster's chat, then the broadcaster's channel
/// point redemptions, both of version 1 and delivered over the session.
pub fn welcome_subscriptions(broadcaster_user_id: &String, chatter_user_id: &String, session_id: &String) -> (r: (
    CreateEventSubSubscription<BroadcasterAndUserCondition>,
    CreateEventSubSubscription<BroadcasterCondition>,
))
    ensures
        r.0.subscription_type@ == chat_message_type(),
        r.0.version@ == "1"@,
        r.0.condition.broadcaster_user_id == *broadcaster_user_id,
        r.0.condition.user_id == *chatter_user_id,
        r.0.transport == (Transport::Websocket { session_id: *session_id }),
        r.1.subscription_type@ == redemption_type(),
        r.1.version@ == "1"@,
        r.1.condition.broadcaster_user_id == *broadcaster_user_id,
        r.1.transport == (Transport::Websocket { session_id: *session_id }),
{
    let chat = CreateEventSubSubscription::new(
        "channel.chat.message",
        "1",
        BroadcasterAndUserCondition {
            broadcaster_user_id: broadcaster_user_id.clone(),
            user_id: chatter_user_id.clone(),
        },
        session_id,
    );
    let redemptions = CreateEventSubSubscription::new(
        "channel.channel_points_custom_reward_redemption.add",
        "1",
        BroadcasterCondition { broadcaster_user_id: broadcaster_user_id.clone() },
        session_id,
    );
    (chat, redemptions)
}

/// The line logged once the subscriptions are made: `subscribed to: ` and
/// their types, separated by `, `.
pub fn subscription_summary(types: &Vec<String>) -> (r: String)
    ensures
        r@ == "subscribed to: "@ + join_with(types.deep_view(), ", "@),
{
    let mut line = String::from_str("subscribed to: ");
    let ghost start = line@;
    let n = types.len();
    let mut i: usize = 0;
    while i < n
        invariant
            n == types@.len(),
            i <= n,
            start == "subscribed to: "@,
            line@ == start + join_with(types.deep_view().take(i as int), ", "@),
        decreases n - i,
    {
        let ghost pieces = types.deep_view().take(i + 1);
        assert(pieces.drop_last() =~= types.deep_view().take(i as int));
        if i > 0 {
            line.append(", ");
        } else {
            assert(types.deep_view().take(i as int) =~= Seq::<Seq<char>>::empty());
        }
        line.append(types[i].as_str());
        assert(line@ =~= start + join_with(pieces, ", "@));
        i = i + 1;
    }
    assert(types.deep_view().take(n as int) =~= types.deep_view());
    line
}

/// Whether Helix accepted a subscription: status 202.
pub fn subscription_accepted(status: u16) -> (r: bool)
    ensures
        r == (status == SUBSCRIPTION_ACCEPTED),
{
    status == SUBSCRIPTION_ACCEPTED
}

/// Whether a Helix call succeeded, so that its body is the answer: status 200.
pub fn call_succeeded(status: u16) -> (r: bool)
    ensures
        r == (status == CALL_SUCCEEDED),
{
    status == CALL_SUCCEEDED
}

/// The body that posts `message` as the bot's user in the broadcaster's chat,
/// as a reply to the given message if there is one.
pub fn chat_message_request(
    broadcaster_user_id: &String,
    chatter_user_id: &String,
    message: String,
    reply_parent_message_id: Option<String>,
) -> (r: SendChatMessage)
    ensures
        r.broadcaster_id == *broadcaster_user_id,
        r.sender_id == *chatter_user_id,
        r.message == message,
        r.reply_parent_message_id == reply_parent_message_id,
{
    SendChatMessage {
        broadcaster_id: broadcaster_user_id.clone(),
        sender_id: chatter_user_id.clone(),
        message,
        reply_parent_message_id,
    }
}

} // verus!
