//! Sending a message of the client: the arbiter decides whether the message
//! may go out, and the message becomes a frame only if it may.

use vstd::prelude::*;

use crate::arbiter::{SendOutcome, SendPermit, WriterArbiter};
use crate::encode::{client_frame, encode};
use crate::model::ClientMessage;

verus! {

/// What becomes of a message that a screen wants to send.
#[derive(Debug, PartialEq, Eq)]
pub enum Dispatch<W> {
    /// Send `frame` on `writer`, then bring the handle back with
    /// [`WriterArbiter::end_send`].
    Transmit { writer: W, frame: String },
    /// The message was dropped. The outcome is `Busy` or `NoConnection`.
    Dropped(SendOutcome),
}

/// The first step of sending a message: asks the arbiter for the handle and,
/// if the arbiter grants it, writes the frame. A message that the arbiter
/// refuses is dropped; it is neither kept nor tried again.
pub fn begin_message<W>(arbiter: &mut WriterArbiter<W>, message: &ClientMessage) -> (dispatch:
    Dispatch<W>)
    ensures
        final(arbiter)@ == old(arbiter)@.after_begin(),
        (match old(arbiter)@.permit() {
            SendPermit::Granted(handle) => (dispatch matches Dispatch::Transmit { writer, frame }
                && writer == handle && frame@ == client_frame(message@)),
            SendPermit::Refused(outcome) => dispatch == Dispatch::<W>::Dropped(outcome),
        }),
{
    match arbiter.begin_send() {
        SendPermit::Granted(writer) => Dispatch::Transmit { writer, frame: encode(message) },
        SendPermit::Refused(outcome) => Dispatch::Dropped(outcome),
    }
}

} // verus!
