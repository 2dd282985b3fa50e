//! The receive loop of a connection: what to do with each thing that the
//! transport hands over.

use crate::manager::WebsocketManager;
use crate::text::{contains_phrase, occurs, utf8_text};
use vstd::prelude::*;
use vstd::utf8::{decode_utf8, valid_utf8};

verus! {

/// One thing that the transport hands to the receive loop.
#[derive(Debug)]
pub enum Incoming {
    /// A text frame.
    Text(String),
    /// A binary frame.
    Binary(Vec<u8>),
    /// A liveness probe of the peer.
    Ping,
    /// The peer's answer to a liveness probe.
    Pong,
    /// The peer closes the connection.
    Close,
    /// A raw frame.
    Frame,
    /// Reading failed; the text is the error as the transport prints it.
    Error(String),
    /// The transport has nothing more to read.
    End,
}

/// What the receive loop does next.
#[derive(Debug)]
pub enum Reaction {
    /// Nothing: read on.
    Ignore,
    /// Leave the loop, which ends the connection.
    Stop,
    /// Hand the text to the terminal of the session, if one is attached, and
    /// read on.
    Keystrokes(String),
}

/// A [`Reaction`], with its text as a sequence of characters.
pub enum ReactionView {
    Ignore,
    Stop,
    Keystrokes(Seq<char>),
}

impl View for Reaction {
    type V = ReactionView;

    open spec fn view(&self) -> ReactionView {
        match self {
            Reaction::Ignore => ReactionView::Ignore,
            Reaction::Stop => ReactionView::Stop,
            Reaction::Keystrokes(text) => ReactionView::Keystrokes(text@),
        }
    }
}

/// A receive error ends the connection when its text names a reset, a broken
/// pipe or an abort. After any other error the loop reads on.
pub open spec fn is_hard(error: Seq<char>) -> bool {
    ||| occurs(error, "Connection reset"@)
    ||| occurs(error, "Broken pipe"@)
    ||| occurs(error, "Connection aborted"@)
}

/// The reaction that each incoming thing calls for.
pub open spec fn reaction_to(incoming: Incoming) -> ReactionView {
    match incoming {
        Incoming::Text(text) => ReactionView::Keystrokes(text@),
        Incoming::Binary(bytes) => if valid_utf8(bytes@) {
            ReactionView::Keystrokes(decode_utf8(bytes@))
        } else {
            ReactionView::Ignore
        },
        Incoming::Ping => ReactionView::Ignore,
        Incoming::Pong => ReactionView::Ignore,
        Incoming::Frame => ReactionView::Ignore,
        Incoming::Close => ReactionView::Stop,
        Incoming::End => ReactionView::Stop,
        Incoming::Error(error) => if is_hard(error@) {
            ReactionView::Stop
        } else {
            ReactionView::Ignore
        },
    }
}

/// Whether a receive error ends the connection.
pub fn is_hard_error(error: &str) -> (b: bool)
    ensures
        b == is_hard(error@),
{
    contains_phrase(error, "Connection reset") || contains_phrase(error, "Broken pipe")
        || contains_phrase(error, "Connection aborted")
}

/// Decides what the receive loop does with one incoming thing.
pub fn classify(incoming: Incoming) -> (r: Reaction)
    ensures
        r@ == reaction_to(incoming),
{
    match incoming {
        Incoming::Text(text) => Reaction::Keystrokes(text),
        Incoming::Binary(bytes) => match utf8_text(bytes) {
            Some(text) => Reaction::Keystrokes(text),
            None => Reaction::Ignore,
        },
        Incoming::Ping => Reaction::Ignore,
        Incoming::Pong => Reaction::Ignore,
        Incoming::Frame => Reaction::Ignore,
        Incoming::Close => Reaction::Stop,
        Incoming::End => Reaction::Stop,
        Incoming::Error(error) => if is_hard_error(error.as_str()) {
            Reaction::Stop
        } else {
            Reaction::Ignore
        },
    }
}

/// One turn of the receive loop of session `client_id`: decides on the
/// incoming thing, hands keystrokes to the attached terminal, and says
/// whether the loop reads on.
///
/// Keystrokes for a session without a terminal, or for a terminal whose
/// channel is closed, are dropped and the loop reads on all the same.
pub fn receive(manager: &mut WebsocketManager, client_id: u128, incoming: Incoming) -> (goes_on:
    bool)
    ensures
        goes_on == !(reaction_to(incoming) is Stop),
        match reaction_to(incoming) {
            ReactionView::Keystrokes(text) => {
                ||| final(manager)@ == old(manager)@
                ||| old(manager)@.is_bound(client_id) && final(manager)@ == old(manager)@.route(
                    client_id,
                    text,
                )
            },
            _ => final(manager)@ == old(manager)@,
        },
{
    match classify(incoming) {
        Reaction::Ignore => true,
        Reaction::Stop => false,
        Reaction::Keystrokes(text) => {
            let _ = manager.route(client_id, text);
            true
        },
    }
}

} // verus!
