//! How the bot handles an EventSub message: what it does for each kind, which
//! notifications it reads, and the chat messages and redemptions it hands to
//! its commands and redeems.
use vstd::prelude::*;
use crate::bot::{ChatMessage, PointRedeem};
use crate::eventsub::{MessageType, TwitchMessage, UserInfo};
use crate::eventsub::event::{ChannelChatMessage, ChannelPointsCustomRewardRedemptionAdd};
use crate::eventsub::payload::NotificationSubscription;
use crate::text::same_text;
use crate::twitch::{chat_message_type, redemption_type};

verus! {

/// What to do for an EventSub message.
#[derive(Clone, Copy, Debug, PartialEq, Eq, Structural)]
pub enum MessagePlan {
    /// A session opened: make the bot's subscriptions on it.
    Subscribe,
    /// A keepalive: nothing.
    Ignore,
    /// A notification: read its subscription and event.
    Notify,
}

/// Which event a notification carries.
#[derive(Clone, Copy, Debug, PartialEq, Eq, Structural)]
pub enum NotificationRoute {
    ChatMessage,
    Redemption,
    /// A subscription the bot did not make: log its type.
    Unhandled,
}

/// The plan for each kind of message; reconnect requests are not supported.
pub open spec fn spec_message_plan(message_type: MessageType) -> MessagePlan {
    match message_type {
        MessageType::SessionWelcome => MessagePlan::Subscribe,
        MessageType::SessionKeepalive => MessagePlan::Ignore,
        _ => MessagePlan::Notify,
    }
}

/// What to do for an EventSub message. The bot does not handle a reconnect
/// request (it stops on one).
pub fn plan_message(message: &TwitchMessage) -> (r: MessagePlan)
    requires
        message.metadata.message_type != MessageType::SessionReconnect,
    ensures
        r == spec_message_plan(message.metadata.message_type),
{
    match message.metadata.message_type {
        MessageType::SessionWelcome => MessagePlan::Subscribe,
        MessageType::SessionKeepalive => MessagePlan::Ignore,
        _ => MessagePlan::Notify,
    }
}

/// Which event a notification of this subscription carries.
pub fn route_notification(subscription: &NotificationSubscription) -> (r: NotificationRoute)
    ensures
        r == (if subscription.subscription_type@ == chat_message_type() {
            NotificationRoute::ChatMessage
        } else if subscription.subscription_type@ == redemption_type() {
            NotificationRoute::Redemption
        } else {
            NotificationRoute::Unhandled
        }),
{
    let kind = subscription.subscription_type.as_str();
    if same_text(kind, "channel.chat.message") {
        NotificationRoute::ChatMessage
    } else if same_text(kind, "channel.channel_points_custom_reward_redemption.add") {
        NotificationRoute::Redemption
    } else {
        NotificationRoute::Unhandled
    }
}

/// The chat message that an event carries, as the commands see it. Twitch
/// sends an empty color for a chatter who never chose one.
pub open spec fn is_chat_message_of(chat: ChatMessage, event: ChannelChatMessage) -> bool {
    &&& chat.message_id == event.message_id
    &&& chat.chatter_user.id == event.chatter_user_id
    &&& chat.chatter_user.login == event.chatter_user_login
    &&& chat.chatter_user.name == event.chatter_user_name
    &&& chat.badges == event.badges
    &&& chat.fragments == event.message.fragments
    &&& chat.color == (if event.color@.len() == 0 {
        None
    } else {
        Some(event.color)
    })
}

/// The chat message that an event carries.
pub fn chat_message_from_event(event: ChannelChatMessage) -> (r: ChatMessage)
    ensures
        is_chat_message_of(r, event),
{
    let color = if event.color.as_str().unicode_len() == 0 {
        None
    } else {
        Some(event.color)
    };
    ChatMessage {
        message_id: event.message_id,
        chatter_user: UserInfo {
            id: event.chatter_user_id,
            login: event.chatter_user_login,
            name: event.chatter_user_name,
        },
        badges: event.badges,
        fragments: event.message.fragments,
        color,
    }
}

/// The chat message the commands get for an event: none for a message the bot
/// itself (the user `bot_user_id`) wrote, so that it never answers itself.
pub fn plan_chat_event(event: ChannelChatMessage, bot_user_id: &String) -> (r: Option<ChatMessage>)
    ensures
        event.chatter_user_id@ == bot_user_id@ ==> r is None,
        event.chatter_user_id@ != bot_user_id@ ==> (r matches Some(chat) && is_chat_message_of(
            chat,
            event,
        )),
{
    if event.chatter_user_id == *bot_user_id {
        None
    } else {
        Some(chat_message_from_event(event))
    }
}

/// The redemption that an event carries, as the redeems see it.
pub fn point_redeem_from_event(event: ChannelPointsCustomRewardRedemptionAdd) -> (r: PointRedeem)
    ensures
        r.id == event.id,
        r.broadcaster_user == (UserInfo {
            id: event.broadcaster_user.id,
            login: event.broadcaster_user.login,
            name: event.broadcaster_user.name,
        }),
        r.user == event.user,
        r.user_input == event.user_input,
        r.reward == event.reward,
{
    PointRedeem {
        id: event.id,
        broadcaster_user: UserInfo::from(event.broadcaster_user),
        user: event.user,
        user_input: event.user_input,
        reward: event.reward,
    }
}

} // verus!
