use eyebot::eventsub::event::{
    ChannelChatMessage, ChannelChatMessageBadge, ChannelChatMessageMessage,
    ChannelChatMessageMessageFragment, ChannelPointsCustomRewardRedemptionAdd,
    ChannelPointsCustomRewardRedemptionAddReward,
};
use eyebot::eventsub::payload::NotificationSubscription;
use eyebot::eventsub::{BroadcasterUserInfo, MessageType, Metadata, TwitchMessage, UserInfo};
use eyebot::handler::{
    plan_chat_event, plan_message, point_redeem_from_event, route_notification, MessagePlan,
    NotificationRoute,
};
use eyebot::socket::{
    comet_frame_step, eventsub_frame_step, receive_error_step, CometStep, EventSubStep, Frame,
    ReceiveError, ReceiveErrorStep,
};

fn broadcaster() -> BroadcasterUserInfo {
    BroadcasterUserInfo { id: "b".to_string(), login: "eye".to_string(), name: "Eye".to_string() }
}

fn chat_event(chatter: &str, color: &str) -> ChannelChatMessage {
    ChannelChatMessage {
        broadcaster_user: broadcaster(),
        chatter_user_id: chatter.to_string(),
        chatter_user_login: "someone".to_string(),
        chatter_user_name: "Someone".to_string(),
        color: color.to_string(),
        message_id: "mid".to_string(),
        message: ChannelChatMessageMessage {
            text: "hello".to_string(),
            fragments: vec![ChannelChatMessageMessageFragment::Text { text: "hello".to_string() }],
        },
        badges: vec![ChannelChatMessageBadge { set_id: "vip".to_string() }],
    }
}

fn message(kind: MessageType) -> TwitchMessage {
    TwitchMessage { metadata: Metadata { message_type: kind }, payload: serde_json::Value::Null }
}

#[test]
fn plans_by_message_type() {
    assert_eq!(plan_message(&message(MessageType::SessionWelcome)), MessagePlan::Subscribe);
    assert_eq!(plan_message(&message(MessageType::SessionKeepalive)), MessagePlan::Ignore);
    assert_eq!(plan_message(&message(MessageType::Notification)), MessagePlan::Notify);
}

#[test]
fn routes_by_subscription_type() {
    let route = |t: &str| route_notification(&NotificationSubscription { subscription_type: t.to_string() });
    assert_eq!(route("channel.chat.message"), NotificationRoute::ChatMessage);
    assert_eq!(route("channel.channel_points_custom_reward_redemption.add"), NotificationRoute::Redemption);
    assert_eq!(route("channel.follow"), NotificationRoute::Unhandled);
    assert_eq!(route("channel.chat.message "), NotificationRoute::Unhandled);
}

#[test]
fn own_messages_are_ignored() {
    assert!(plan_chat_event(chat_event("bot", "#FFF"), &"bot".to_string()).is_none());
    let chat = plan_chat_event(chat_event("viewer", "#00FF00"), &"bot".to_string()).unwrap();
    assert_eq!(chat.chatter_user.id, "viewer");
    assert_eq!(chat.chatter_user.name, "Someone");
    assert_eq!(chat.message_id, "mid");
    assert_eq!(chat.color, Some("#00FF00".to_string()));
    assert_eq!(chat.badges.len(), 1);
    assert_eq!(chat.message_text(), "hello");
}

#[test]
fn empty_color_means_none() {
    let chat = plan_chat_event(chat_event("viewer", ""), &"bot".to_string()).unwrap();
    assert_eq!(chat.color, None);
}

#[test]
fn redemption_event_converts() {
    let user = UserInfo { id: "u".to_string(), login: "u".to_string(), name: "U".to_string() };
    let r = point_redeem_from_event(ChannelPointsCustomRewardRedemptionAdd {
        id: "r1".to_string(),
        broadcaster_user: broadcaster(),
        user: user.clone(),
        user_input: "boom".to_string(),
        reward: ChannelPointsCustomRewardRedemptionAddReward {
            id: "w".to_string(),
            title: "Play Audio".to_string(),
            cost: 5,
            prompt: "name sounds".to_string(),
        },
    });
    assert_eq!(r.id, "r1");
    assert_eq!(r.broadcaster_user.id, "b");
    assert_eq!(r.broadcaster_user.login, "eye");
    assert_eq!(r.broadcaster_user.name, "Eye");
    assert_eq!(r.user.id, "u");
    assert_eq!(r.user_input, "boom");
    assert_eq!(r.reward.cost, 5);
}

#[test]
fn user_info_from_broadcaster() {
    let u: UserInfo = broadcaster().into();
    assert_eq!((u.id.as_str(), u.login.as_str(), u.name.as_str()), ("b", "eye", "Eye"));
}

#[test]
fn eventsub_frames() {
    assert!(matches!(eventsub_frame_step(Frame::Text("{}".to_string())), EventSubStep::Handle(t) if t == "{}"));
    assert!(matches!(eventsub_frame_step(Frame::Ping(vec![1, 2])), EventSubStep::Pong(d) if d == vec![1, 2]));
    assert!(matches!(eventsub_frame_step(Frame::Close(None)), EventSubStep::Stop(None)));
    assert!(matches!(eventsub_frame_step(Frame::Binary(vec![])), EventSubStep::Report));
    assert!(matches!(eventsub_frame_step(Frame::Pong(vec![])), EventSubStep::Report));
}

#[test]
fn comet_frames() {
    assert!(matches!(comet_frame_step(Frame::Text("r".to_string())), CometStep::Reply(t) if t == "r"));
    assert!(matches!(comet_frame_step(Frame::Ping(vec![9])), CometStep::Pong(d) if d == vec![9]));
    assert!(matches!(comet_frame_step(Frame::Close(Some("bye".to_string()))),
        CometStep::Disconnected { reason } if reason == "Comet socket closed while trying to receive reply"));
    assert!(matches!(comet_frame_step(Frame::Other),
        CometStep::Invalid { reason } if reason == "Invalid message from Comet socket"));
}

#[test]
fn receive_errors() {
    assert_eq!(receive_error_step(ReceiveError::Http), ReceiveErrorStep::ShowBody);
    assert_eq!(receive_error_step(ReceiveError::Closed), ReceiveErrorStep::Stop);
    assert_eq!(receive_error_step(ReceiveError::Other), ReceiveErrorStep::Report);
}
