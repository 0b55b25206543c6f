//! Events of the two subscriptions the bot makes.
use vstd::prelude::*;
use crate::eventsub::{BroadcasterUserInfo, UserInfo};

verus! {

/// A `channel.chat.message` event.
#[derive(Clone, Debug)]
pub struct ChannelChatMessage {
    pub broadcaster_user: BroadcasterUserInfo,
    pub chatter_user_id: String,
    pub chatter_user_login: String,
    pub chatter_user_name: String,
    pub color: String,
    pub message_id: String,
    pub message: ChannelChatMessageMessage,
    pub badges: Vec<ChannelChatMessageBadge>,
}

/// A chat badge of the chatter.
#[derive(Clone, Debug)]
pub struct ChannelChatMessageBadge {
    pub set_id: String,
}

/// The text of a chat message and its fragments.
#[derive(Clone, Debug)]
pub struct ChannelChatMessageMessage {
    pub text: String,
    pub fragments: Vec<ChannelChatMessageMessageFragment>,
}

/// A piece of a chat message (`type` on the wire, in snake case).
#[derive(Clone, Debug)]
pub enum ChannelChatMessageMessageFragment {
    Text { text: String },
    Mention { text: String, mention: UserInfo },
    Emote { text: String, emote: ChannelChatMessageMessageFragmentEmote },
}

/// The emote of an emote fragment.
#[derive(Clone, Debug)]
pub struct ChannelChatMessageMessageFragmentEmote {
    pub id: String,
}

/// A `channel.channel_points_custom_reward_redemption.add` event.
#[derive(Clone, Debug)]
pub struct ChannelPointsCustomRewardRedemptionAdd {
    pub id: String,
    pub broadcaster_user: BroadcasterUserInfo,
    pub user: UserInfo,
    pub user_input: String,
    pub reward: ChannelPointsCustomRewardRedemptionAddReward,
}

/// The reward that was redeemed.
#[derive(Clone, Debug)]
pub struct ChannelPointsCustomRewardRedemptionAddReward {
    pub id: String,
    pub title: String,
    pub cost: u64,
    pub prompt: String,
}

impl ChannelChatMessageMessageFragment {
    /// The text of the fragment, whatever its kind.
    pub open spec fn spec_text(self) -> Seq<char> {
        match self {
            ChannelChatMessageMessageFragment::Text { text } => text@,
            ChannelChatMessageMessageFragment::Mention { text, .. } => text@,
            ChannelChatMessageMessageFragment::Emote { text, .. } => text@,
        }
    }
}

} // verus!
