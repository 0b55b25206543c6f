//! A chat bot for Twitch: the decisions that it makes about chat messages,
//! channel point redemptions, the Comet overlay connection and the OAuth
//! token life cycle, stated and proved with Verus.
pub mod text;
pub mod eventsub;
pub mod bot;
pub mod comet;
pub mod url;
pub mod auth;
pub mod twitch;
pub mod handler;
pub mod socket;
