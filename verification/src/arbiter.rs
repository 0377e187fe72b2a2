//! The writer arbiter: who may use the outgoing half of the stream.
//!
//! The arbiter has one slot for the writer handle. A sender takes the handle
//! out of the slot, sends, and puts the handle back if the send went well
//! and no fresh handle has taken its place.
//! While the handle is out, every other sender is turned away, so no two
//! sends on one handle overlap, and nothing is queued.
//!
//! Sending takes time, and other tasks run meanwhile. A send therefore has
//! two steps: [`WriterArbiter::begin_send`] before the frame goes out and
//! [`WriterArbiter::end_send`] when the stream has said how it went.

use vstd::prelude::*;

verus! {

/// What a sender learns about its frame.
#[derive(Clone, Copy, Debug, PartialEq, Eq, Structural)]
pub enum SendOutcome {
    /// The frame went out.
    Sent,
    /// Another send holds the handle. The frame was dropped.
    Busy,
    /// There is no live handle: none was published yet, or the last send
    /// failed. The frame was dropped.
    NoConnection,
}

/// The slot of the arbiter.
#[derive(Debug, PartialEq, Eq)]
pub enum WriterSlot<W> {
    /// No handle, and no send under way.
    Empty,
    /// The handle is here for the next sender.
    Occupied(W),
    /// A sender has taken the handle and has not finished.
    InFlight,
}

/// The answer to a sender that asks for the handle.
#[derive(Debug, PartialEq, Eq)]
pub enum SendPermit<W> {
    /// Go ahead with this handle, and bring it back with `end_send`.
    Granted(W),
    /// Do not send. The outcome is `Busy` or `NoConnection`.
    Refused(SendOutcome),
}

impl<W> WriterSlot<W> {
    /// The answer that a sender gets from a slot.
    pub open spec fn permit(self) -> SendPermit<W> {
        match self {
            WriterSlot::Occupied(writer) => SendPermit::Granted(writer),
            WriterSlot::InFlight => SendPermit::Refused(SendOutcome::Busy),
            WriterSlot::Empty => SendPermit::Refused(SendOutcome::NoConnection),
        }
    }

    /// The slot after a sender has asked for the handle.
    pub open spec fn after_begin(self) -> WriterSlot<W> {
        match self {
            WriterSlot::Occupied(_) => WriterSlot::InFlight,
            other => other,
        }
    }

    /// The slot after the connection was lost: the handle in it is gone. A
    /// handle that a sender holds stays with the sender.
    pub open spec fn after_retire(self) -> WriterSlot<W> {
        match self {
            WriterSlot::Occupied(_) => WriterSlot::Empty,
            other => other,
        }
    }

    /// The slot after a sender has come back with the handle `writer`. A
    /// handle that was published meanwhile stays: it belongs to the live
    /// connection, and the one that comes back to a connection that is gone.
    /// Else a handle that did its work is in the slot again, and a handle
    /// that failed leaves the slot that waited for it empty.
    pub open spec fn after_end(self, writer: W, delivered: bool) -> WriterSlot<W> {
        match self {
            WriterSlot::Occupied(fresh) => WriterSlot::Occupied(fresh),
            _ => if delivered {
                WriterSlot::Occupied(writer)
            } else {
                WriterSlot::Empty
            },
        }
    }
}

/// What a sender learns when the stream has said how the send went.
pub open spec fn outcome_of(delivered: bool) -> SendOutcome {
    if delivered {
        SendOutcome::Sent
    } else {
        SendOutcome::NoConnection
    }
}

/// The arbiter of the outgoing half of the stream. `W` is the writer handle.
pub struct WriterArbiter<W> {
    slot: WriterSlot<W>,
}

impl<W> View for WriterArbiter<W> {
    type V = WriterSlot<W>;

    closed spec fn view(&self) -> WriterSlot<W> {
        self.slot
    }
}

impl<W> WriterArbiter<W> {
    /// An arbiter without a handle.
    pub fn new() -> (arbiter: Self)
        ensures
            arbiter@ == WriterSlot::<W>::Empty,
    {
        WriterArbiter { slot: WriterSlot::Empty }
    }

    /// Puts the handle of a fresh connection into the slot. Whatever the slot
    /// held belongs to a connection that is gone.
    pub fn publish(&mut self, writer: W)
        ensures
            final(self)@ == WriterSlot::Occupied(writer),
    {
        self.slot = WriterSlot::Occupied(writer);
    }

    /// Drops the handle of a connection that was lost, so that no sender
    /// takes it. A send in flight is not disturbed.
    pub fn retire(&mut self)
        ensures
            final(self)@ == old(self)@.after_retire(),
    {
        let mut slot = WriterSlot::Empty;
        core::mem::swap(&mut self.slot, &mut slot);
        match slot {
            WriterSlot::InFlight => {
                self.slot = WriterSlot::InFlight;
            },
            _ => {},
        }
    }

    /// The first step of a send: asks for the handle.
    ///
    /// The sender gets the handle if it is in the slot, and the slot then
    /// shows a send in flight. It is refused with `Busy` while another send
    /// is in flight and with `NoConnection` while the slot is empty; the slot
    /// stays as it is.
    pub fn begin_send(&mut self) -> (permit: SendPermit<W>)
        ensures
            permit == old(self)@.permit(),
            final(self)@ == old(self)@.after_begin(),
    {
        let mut slot = WriterSlot::InFlight;
        core::mem::swap(&mut self.slot, &mut slot);
        match slot {
            WriterSlot::Occupied(writer) => SendPermit::Granted(writer),
            WriterSlot::InFlight => SendPermit::Refused(SendOutcome::Busy),
            WriterSlot::Empty => {
                self.slot = WriterSlot::Empty;
                SendPermit::Refused(SendOutcome::NoConnection)
            },
        }
    }

    /// The last step of a send: brings the handle back and says whether the
    /// frame went out.
    ///
    /// The outcome is `Sent` after a send that went well and `NoConnection`
    /// after one that failed. A handle that did its work goes back into the
    /// slot, a handle that failed is dropped and leaves the slot empty. If a
    /// fresh handle was published while the send was under way, the fresh
    /// handle stays in the slot and the one that comes back is dropped.
    pub fn end_send(&mut self, writer: W, delivered: bool) -> (outcome: SendOutcome)
        ensures
            outcome == outcome_of(delivered),
            final(self)@ == old(self)@.after_end(writer, delivered),
    {
        let mut slot = WriterSlot::Empty;
        core::mem::swap(&mut self.slot, &mut slot);
        match slot {
            WriterSlot::Occupied(fresh) => {
                self.slot = WriterSlot::Occupied(fresh);
            },
            _ => {
                if delivered {
                    self.slot = WriterSlot::Occupied(writer);
                }
            },
        }
        if delivered {
            SendOutcome::Sent
        } else {
            SendOutcome::NoConnection
        }
    }
}

/// One sender at a time: of two senders that ask for the handle before the
/// first has finished, the first gets it and the second is turned away with
/// `Busy`, without a change to the slot. Once the first has finished with
/// success, the next sender gets the handle again.
pub proof fn lemma_one_sender_at_a_time<W>(slot: WriterSlot<W>, writer: W)
    requires
        slot == WriterSlot::Occupied(writer),
    ensures
        slot.permit() == SendPermit::Granted(writer),
        slot.after_begin().permit() == SendPermit::<W>::Refused(SendOutcome::Busy),
        slot.after_begin().after_begin() == slot.after_begin(),
        slot.after_begin().after_end(writer, true).permit() == SendPermit::Granted(writer),
{
}

/// No send on a dead connection: after a send that failed, and after the
/// connection was lost with the handle in the slot, every sender is turned
/// away with `NoConnection`, and stays turned away until a fresh handle is
/// published.
pub proof fn lemma_no_send_without_connection<W>(slot: WriterSlot<W>, writer: W)
    requires
        slot == WriterSlot::Occupied(writer),
    ensures
        slot.after_begin().after_end(writer, false) == WriterSlot::<W>::Empty,
        slot.after_retire() == WriterSlot::<W>::Empty,
        WriterSlot::<W>::Empty.permit() == SendPermit::<W>::Refused(SendOutcome::NoConnection),
        WriterSlot::<W>::Empty.after_begin() == WriterSlot::<W>::Empty,
{
}

/// A fresh handle outlives the send that was under way when it came: the
/// handle that comes back, whether its send went well or not, does not take
/// the place of a handle published meanwhile, and the next sender gets the
/// fresh one.
pub proof fn lemma_fresh_handle_stays<W>(fresh: W, stale: W, delivered: bool)
    ensures
        WriterSlot::Occupied(fresh).after_end(stale, delivered) == WriterSlot::Occupied(fresh),
        WriterSlot::Occupied(fresh).after_end(stale, delivered).permit() == SendPermit::Granted(
            fresh,
        ),
{
}

} // verus!
