//! What the bot does with each frame that arrives on one of its websockets.
use vstd::prelude::*;

verus! {

/// A websocket frame, as the bot tells frames apart.
pub enum Frame {
    Text(String),
    Binary(Vec<u8>),
    Ping(Vec<u8>),
    Pong(Vec<u8>),
    /// The peer closes; with a description of its close frame, if it sent one.
    Close(Option<String>),
    /// A raw frame that carries none of the above.
    Other,
}

/// What to do with a frame of the EventSub websocket.
pub enum EventSubStep {
    /// Parse and handle this text as an EventSub message.
    Handle(String),
    /// Answer with a pong that carries these bytes.
    Pong(Vec<u8>),
    /// Stop listening, logging the close frame's description if there is one.
    Stop(Option<String>),
    /// Log the frame and go on.
    Report,
}

/// What to do with a frame of the Comet socket while a reply is awaited.
pub enum CometStep {
    /// This text is the reply.
    Reply(String),
    /// Answer with a pong that carries these bytes, and keep waiting.
    Pong(Vec<u8>),
    /// The overlay closed: forget the connection and fail with `reason`.
    Disconnected { reason: String },
    /// The overlay sent something else: fail with `reason`.
    Invalid { reason: String },
}

/// A failure to receive from the EventSub websocket, as the bot tells them apart.
#[derive(Clone, Copy, Debug, PartialEq, Eq, Structural)]
pub enum ReceiveError {
    /// The server answered the handshake with an HTTP error.
    Http,
    /// The connection is already closed, or was closed normally.
    Closed,
    /// Any other failure.
    Other,
}

/// What to do after a failure to receive.
#[derive(Clone, Copy, Debug, PartialEq, Eq, Structural)]
pub enum ReceiveErrorStep {
    /// Log the body of the HTTP answer and go on.
    ShowBody,
    /// Stop listening.
    Stop,
    /// Log the error and go on.
    Report,
}

/// A closed connection stops the bot; any other failure is logged.
pub fn receive_error_step(error: ReceiveError) -> (r: ReceiveErrorStep)
    ensures
        r == match error {
            ReceiveError::Http => ReceiveErrorStep::ShowBody,
            ReceiveError::Closed => ReceiveErrorStep::Stop,
            ReceiveError::Other => ReceiveErrorStep::Report,
        },
{
    match error {
        ReceiveError::Http => ReceiveErrorStep::ShowBody,
        ReceiveError::Closed => ReceiveErrorStep::Stop,
        ReceiveError::Other => ReceiveErrorStep::Report,
    }
}

/// Text is handled, a ping answered, a close stops the bot; anything else is
/// logged.
pub fn eventsub_frame_step(frame: Frame) -> (r: EventSubStep)
    ensures
        match frame {
            Frame::Text(t) => r == EventSubStep::Handle(t),
            Frame::Ping(d) => r == EventSubStep::Pong(d),
            Frame::Close(c) => r == EventSubStep::Stop(c),
            _ => r is Report,
        },
{
    match frame {
        Frame::Text(t) => EventSubStep::Handle(t),
        Frame::Ping(d) => EventSubStep::Pong(d),
        Frame::Close(c) => EventSubStep::Stop(c),
        _ => EventSubStep::Report,
    }
}

/// Text is the awaited reply, a ping is answered, a close loses the
/// connection; anything else is invalid.
pub fn comet_frame_step(frame: Frame) -> (r: CometStep)
    ensures
        match frame {
            Frame::Text(t) => r == CometStep::Reply(t),
            Frame::Ping(d) => r == CometStep::Pong(d),
            Frame::Close(_) => r matches CometStep::Disconnected { reason } && reason@
                == "Comet socket closed while trying to receive reply"@,
            _ => r matches CometStep::Invalid { reason } && reason@
                == "Invalid message from Comet socket"@,
        },
{
    match frame {
        Frame::Text(t) => CometStep::Reply(t),
        Frame::Ping(d) => CometStep::Pong(d),
        Frame::Close(_) => CometStep::Disconnected {
            reason: String::from_str("Comet socket closed while trying to receive reply"),
        },
        _ => CometStep::Invalid { reason: String::from_str("Invalid message from Comet socket") },
    }
}

} // verus!
