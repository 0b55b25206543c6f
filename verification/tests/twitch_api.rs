use eyebot::twitch::{
    call_succeeded, chat_message_request, subscription_accepted, subscription_summary,
    welcome_subscriptions, Transport,
};

#[test]
fn welcome_subscriptions_use_the_session() {
    let (chat, redeems) = welcome_subscriptions(&"b1".to_string(), &"c2".to_string(), &"sess".to_string());
    assert_eq!(chat.subscription_type, "channel.chat.message");
    assert_eq!(chat.version, "1");
    assert_eq!(chat.condition.broadcaster_user_id, "b1");
    assert_eq!(chat.condition.user_id, "c2");
    assert!(matches!(&chat.transport, Transport::Websocket { session_id } if session_id == "sess"));
    assert_eq!(redeems.subscription_type, "channel.channel_points_custom_reward_redemption.add");
    assert_eq!(redeems.version, "1");
    assert_eq!(redeems.condition.broadcaster_user_id, "b1");
    assert!(matches!(&redeems.transport, Transport::Websocket { session_id } if session_id == "sess"));
}

#[test]
fn summary_lists_the_types() {
    let types = vec!["channel.chat.message".to_string(), "channel.follow".to_string()];
    assert_eq!(subscription_summary(&types), "subscribed to: channel.chat.message, channel.follow");
    assert_eq!(subscription_summary(&vec![]), "subscribed to: ");
}

#[test]
fn statuses() {
    assert!(subscription_accepted(202));
    assert!(!subscription_accepted(200));
    assert!(call_succeeded(200));
    assert!(!call_succeeded(202));
}

#[test]
fn chat_request_fields() {
    let r = chat_message_request(&"b".to_string(), &"s".to_string(), "Pong!".to_string(), Some("p".to_string()));
    assert_eq!(r.broadcaster_id, "b");
    assert_eq!(r.sender_id, "s");
    assert_eq!(r.message, "Pong!");
    assert_eq!(r.reply_parent_message_id, Some("p".to_string()));
}
