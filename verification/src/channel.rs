//! The channels of a session, as the multiplexer uses them: the producer half
//! of an unbounded queue, the frames put on it, and the one call that offers an
//! item to it.

use tokio::sync::mpsc::UnboundedSender;
use tokio_tungstenite::tungstenite::Message;
use vstd::prelude::*;

verus! {

/// The producer half of an unbounded channel of tokio. Nothing inside it is
/// visible here: a handle is stored, compared and handed to [`offer`].
#[verifier::external_type_specification]
#[verifier::external_body]
#[verifier::reject_recursive_types(T)]
pub struct ExUnboundedSender<T>(UnboundedSender<T>);

/// A frame of the transport, as tungstenite holds it. Nothing inside it is
/// visible here.
#[verifier::external_type_specification]
#[verifier::external_body]
pub struct ExMessage(Message);

/// Calls `UnboundedSender::send`. Whether the item is taken depends on the
/// receiving half alone, so nothing is claimed of that. When the channel
/// refuses, tokio's error prints as `channel closed`, and that text comes back.
/// tokio ends the process should the count of queued items ever reach the
/// limit of its counter; no argument can bring that about.
#[verifier::external_body]
pub(crate) fn offer<T>(tx: &UnboundedSender<T>, item: T) -> (r: Result<(), String>)
    ensures
        r is Err ==> r->Err_0@ == "channel closed"@,
{
    match tx.send(item) {
        Ok(()) => Ok(()),
        Err(e) => Err(e.to_string()),
    }
}

/// Builds tungstenite's `Message::Text` around the given text. The frame is
/// opaque here, so no clause describes it.
#[verifier::external_body]
pub(crate) fn text_frame(text: String) -> Message {
    Message::Text(text.into())
}

/// Builds tungstenite's `Message::Ping` around the given payload. The frame is
/// opaque here, so no clause describes it.
#[verifier::external_body]
pub(crate) fn ping_frame(payload: &'static str) -> Message {
    Message::Ping(payload.into())
}

} // verus!
