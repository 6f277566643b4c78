//! The connector boundary: the message types handed to the transport, the
//! sequence stamping every outbound frame receives, and the decision taken
//! for each kind of transport frame. The transport itself (the socket, the
//! REST client) lives outside the library and only performs what these
//! values say.

use vstd::prelude::*;

use crate::discord::{MessageRequestPacket, WrapperPacket};

verus! {

/// Verb of an outbound REST request.
#[derive(Debug, Clone, Copy, PartialEq, Eq, Structural)]
pub enum HttpMethod {
    GET,
    POST,
    PUT,
    DELETE,
}

/// An outbound REST request.
#[derive(Debug)]
pub struct RequestMessage {
    /// Verb
    pub method: HttpMethod,
    /// Path of the endpoint
    pub url: String,
    /// Body, if the request carries one
    pub data: Option<MessageRequestPacket>,
}

/// An outbound gateway frame on its way to the transport.
#[derive(Debug)]
pub struct ClientMessage {
    /// The frame to send
    pub data: WrapperPacket,
}

/// Stamp an outbound frame with the sequence value current at send time.
/// Every outbound frame is stamped this way just before it is written to
/// the transport.
pub fn stamp_sequence(frame: &mut WrapperPacket, sequence: Option<i64>)
    ensures
        final(frame).s == sequence,
        final(frame).op == old(frame).op,
        final(frame).d == old(frame).d,
        final(frame).t == old(frame).t,
{
    frame.s = sequence;
}

/// One frame as the transport hands it over.
#[derive(Debug)]
pub enum TransportMessage {
    /// A text frame: a JSON envelope
    Text(String),
    /// The close frame, with its reason if one was given
    Close(Option<String>),
    /// A ping frame carrying a payload
    Ping(String),
    /// A binary frame: accepted but ignored
    Binary(Vec<u8>),
    /// A pong frame: accepted but ignored
    Pong(String),
}

/// What to do with one transport frame.
#[derive(Debug)]
pub enum TransportAction {
    /// Decode the text as an envelope and hand it to the engine
    ProcessText(String),
    /// Close the session and terminate
    Shutdown,
    /// Answer with a pong carrying exactly this payload
    SendPong(String),
    /// Drop the frame
    Skip,
}

/// The decision for each kind of transport frame: text is processed,
/// close terminates, ping is answered with a pong carrying the identical
/// payload, and binary and pong frames are dropped.
pub fn on_transport_message(msg: TransportMessage) -> (r: TransportAction)
    ensures
        match msg {
            TransportMessage::Text(t) => r matches TransportAction::ProcessText(x) && x@ == t@,
            TransportMessage::Close(_) => r is Shutdown,
            TransportMessage::Ping(d) => r matches TransportAction::SendPong(x) && x@ == d@,
            TransportMessage::Binary(_) => r is Skip,
            TransportMessage::Pong(_) => r is Skip,
        },
{
    match msg {
        TransportMessage::Text(t) => TransportAction::ProcessText(t),
        TransportMessage::Close(_) => TransportAction::Shutdown,
        TransportMessage::Ping(d) => TransportAction::SendPong(d),
        TransportMessage::Binary(_) => TransportAction::Skip,
        TransportMessage::Pong(_) => TransportAction::Skip,
    }
}

} // verus!
