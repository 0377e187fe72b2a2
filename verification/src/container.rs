//! The synchronised state container: the one place that holds the snapshot.
//!
//! Readers get the snapshot by reference. The only way to change it is to
//! hand the container a message of the server, so the snapshot is at all
//! times the fold of the messages that the container has taken in.

use vstd::prelude::*;

use crate::decode::{decode, frame_message, DecodeError};
use crate::model::{ClientGameState, ClientGameStateView, ServerMessage, ServerMessageView};
use crate::reducer::{
    applied, apply_server_message, lemma_applied_keeps_well_formed, message_well_formed, replayed,
};

verus! {

/// A snapshot together with the messages that led to it.
struct Record {
    snapshot: ClientGameState,
    received: Ghost<Seq<ServerMessageView>>,
}

impl Record {
    fn blank() -> (record: Self)
        ensures
            record.snapshot@ == ClientGameStateView::initial(),
            record.received@ == Seq::<ServerMessageView>::empty(),
    {
        Record { snapshot: ClientGameState::default(), received: Ghost(Seq::empty()) }
    }
}

/// The container of the snapshot.
pub struct StateContainer {
    record: Record,
}

/// The mathematical value of a [`StateContainer`]: the snapshot, and the
/// messages that the container has taken in, oldest first.
pub struct StateContainerView {
    pub snapshot: ClientGameStateView,
    pub history: Seq<ServerMessageView>,
}

impl StateContainerView {
    /// The container after it has taken in a message.
    pub open spec fn received(self, message: ServerMessageView) -> StateContainerView {
        StateContainerView {
            snapshot: applied(self.snapshot, message),
            history: self.history.push(message),
        }
    }

    /// The container after it has taken in a frame: the message that the
    /// frame carries, or nothing where it carries none.
    pub open spec fn ingested(self, frame: Seq<char>) -> StateContainerView {
        match frame_message(frame) {
            Ok(message) => self.received(message),
            Err(_) => self,
        }
    }
}

impl View for StateContainer {
    type V = StateContainerView;

    closed spec fn view(&self) -> StateContainerView {
        StateContainerView { snapshot: self.record.snapshot@, history: self.record.received@ }
    }
}

impl StateContainer {
    #[verifier::type_invariant]
    spec fn snapshot_is_fold(self) -> bool {
        self.record.snapshot@ == replayed(ClientGameStateView::initial(), self.record.received@)
    }

    /// A container that has heard nothing from the server.
    pub fn new() -> (container: Self)
        ensures
            container@.snapshot == ClientGameStateView::initial(),
            container@.history == Seq::<ServerMessageView>::empty(),
    {
        StateContainer { record: Record::blank() }
    }

    /// The snapshot, to read. It is the fold of the history.
    pub fn snapshot(&self) -> (snapshot: &ClientGameState)
        ensures
            snapshot@ == self@.snapshot,
            self@.snapshot == replayed(ClientGameStateView::initial(), self@.history),
    {
        proof {
            use_type_invariant(self);
        }
        &self.record.snapshot
    }

    /// Takes in one message of the server.
    pub fn receive(&mut self, message: ServerMessage)
        ensures
            final(self)@ == old(self)@.received(message@),
            old(self)@.snapshot.well_formed() && message_well_formed(message@)
                ==> final(self)@.snapshot.well_formed(),
    {
        proof {
            use_type_invariant(&*self);
            if self@.snapshot.well_formed() && message_well_formed(message@) {
                lemma_applied_keeps_well_formed(self@.snapshot, message@);
            }
        }
        let mut record = Record::blank();
        core::mem::swap(&mut self.record, &mut record);
        let ghost taken = record.received@.push(message@);
        assert(taken.drop_last() =~= record.received@);
        apply_server_message(&mut record.snapshot, message);
        record.received = Ghost(taken);
        self.record = record;
    }

    /// Takes in one frame of the stream: the message it carries, if it
    /// carries one. A frame that does not decode changes nothing, and the
    /// reason comes back.
    pub fn ingest(&mut self, frame: &str) -> (taken: Result<(), DecodeError>)
        ensures
            final(self)@ == old(self)@.ingested(frame@),
            match frame_message(frame@) {
                Ok(_) => taken is Ok,
                Err(reason) => taken == Err::<(), DecodeError>(reason),
            },
    {
        match decode(frame) {
            Ok(message) => {
                self.receive(message);
                Ok(())
            },
            Err(reason) => Err(reason),
        }
    }
}

} // verus!
