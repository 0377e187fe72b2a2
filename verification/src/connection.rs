//! The connection manager: when the stream is opened, read and opened again.
//!
//! The manager is a state machine. It does no input or output itself. A
//! driver asks it for the next step, carries the step out, and reports what
//! happened:
//!
//! ```text
//! loop {
//!     match manager.advance() {
//!         NextStep::OpenStream => open the stream, then
//!             manager.handle(Opened(write half) or OpenFailed, ..),
//!         NextStep::AwaitFrame => wait for the next frame, then
//!             manager.handle(Text(..), Binary, Ended or Failed, ..),
//!     }
//! }
//! ```
//!
//! The machine has no last state: a stream that ended or failed is opened
//! again at once, for as long as the driver runs.

use vstd::prelude::*;

use crate::arbiter::{WriterArbiter, WriterSlot};
use crate::container::{StateContainer, StateContainerView};
use crate::decode::{frame_message, DecodeError};
use crate::model::{ClientGameStateView, ServerMessageView};
use crate::text::text_is;

verus! {

/// Where the stream stands.
#[derive(Clone, Copy, Debug, PartialEq, Eq, Structural)]
pub enum ConnectionState {
    /// The stream is to be opened, or is being opened.
    Connecting,
    /// The stream is open and frames are read from it.
    Open,
    /// The stream came to its end.
    Closed,
    /// Reading from the stream failed.
    Faulted,
}

/// What the driver reports to the manager.
#[derive(Debug, PartialEq, Eq)]
pub enum StreamEvent<W> {
    /// The stream is open. `W` is its outgoing half.
    Opened(W),
    /// The stream could not be opened.
    OpenFailed,
    /// A frame of text came in.
    Text(String),
    /// A frame came in that is not text.
    Binary,
    /// The stream came to its end.
    Ended,
    /// Reading from the stream failed.
    Failed,
}

/// The mathematical value of a [`StreamEvent`].
pub enum StreamEventView<W> {
    Opened(W),
    OpenFailed,
    Text(Seq<char>),
    Binary,
    Ended,
    Failed,
}

impl<W> View for StreamEvent<W> {
    type V = StreamEventView<W>;

    open spec fn view(&self) -> StreamEventView<W> {
        match self {
            StreamEvent::Opened(writer) => StreamEventView::Opened(*writer),
            StreamEvent::OpenFailed => StreamEventView::OpenFailed,
            StreamEvent::Text(frame) => StreamEventView::Text(frame@),
            StreamEvent::Binary => StreamEventView::Binary,
            StreamEvent::Ended => StreamEventView::Ended,
            StreamEvent::Failed => StreamEventView::Failed,
        }
    }
}

/// What the driver does next.
#[derive(Clone, Copy, Debug, PartialEq, Eq, Structural)]
pub enum NextStep {
    /// Open the stream and report `Opened` or `OpenFailed`.
    OpenStream,
    /// Wait for the next frame and report `Text`, `Binary`, `Ended` or
    /// `Failed`.
    AwaitFrame,
}

/// What the manager made of an event.
#[derive(Clone, Copy, Debug, PartialEq, Eq, Structural)]
pub enum Handled {
    /// The stream is open and its outgoing half is with the arbiter.
    Connected,
    /// The frame carried a message, and the snapshot has taken it in.
    Applied,
    /// The frame carried no message. It was dropped; the stream stays open.
    Dropped(DecodeError),
    /// The frame was not text. It was passed over; the stream stays open.
    Skipped,
    /// The stream did not open. The manager stays connecting, and the next
    /// step is to open the stream again.
    Retrying,
    /// The stream is gone and will be opened again.
    Disconnected,
    /// The event does not belong to the state the manager is in. Nothing
    /// changed.
    Unexpected,
}

impl ConnectionState {
    /// The state from which the next step is taken: a stream that is closed
    /// or faulted is connecting again, whatever else holds.
    pub open spec fn resumed(self) -> ConnectionState {
        match self {
            ConnectionState::Closed | ConnectionState::Faulted => ConnectionState::Connecting,
            other => other,
        }
    }

    /// The step that the driver takes next.
    pub open spec fn next_step(self) -> NextStep {
        match self.resumed() {
            ConnectionState::Open => NextStep::AwaitFrame,
            _ => NextStep::OpenStream,
        }
    }
}

/// The state after an event. The steps are connecting to open, open to
/// closed or faulted, and no others; a stream that did not open leaves the
/// manager connecting.
pub open spec fn state_after<W>(state: ConnectionState, event: StreamEventView<W>)
    -> ConnectionState {
    match (state, event) {
        (ConnectionState::Connecting, StreamEventView::Opened(_)) => ConnectionState::Open,
        (ConnectionState::Open, StreamEventView::Ended) => ConnectionState::Closed,
        (ConnectionState::Open, StreamEventView::Failed) => ConnectionState::Faulted,
        _ => state,
    }
}

/// The slot of the arbiter after an event: the outgoing half of a stream
/// that has just opened replaces what the slot held, and the outgoing half
/// of a stream that is gone leaves the slot.
pub open spec fn slot_after<W>(
    state: ConnectionState,
    slot: WriterSlot<W>,
    event: StreamEventView<W>,
) -> WriterSlot<W> {
    match (state, event) {
        (ConnectionState::Connecting, StreamEventView::Opened(writer)) => WriterSlot::Occupied(
            writer,
        ),
        (ConnectionState::Open, StreamEventView::Ended) => slot.after_retire(),
        (ConnectionState::Open, StreamEventView::Failed) => slot.after_retire(),
        _ => slot,
    }
}

/// The container after an event: a frame of text, read while the stream is
/// open, is taken in.
pub open spec fn container_after<W>(
    state: ConnectionState,
    container: StateContainerView,
    event: StreamEventView<W>,
) -> StateContainerView {
    match (state, event) {
        (ConnectionState::Open, StreamEventView::Text(frame)) => container.ingested(frame),
        _ => container,
    }
}

/// What the manager makes of an event.
pub open spec fn report_of<W>(state: ConnectionState, event: StreamEventView<W>) -> Handled {
    match (state, event) {
        (ConnectionState::Connecting, StreamEventView::Opened(_)) => Handled::Connected,
        (ConnectionState::Connecting, StreamEventView::OpenFailed) => Handled::Retrying,
        (ConnectionState::Open, StreamEventView::Text(frame)) => match frame_message(frame) {
            Ok(_) => Handled::Applied,
            Err(reason) => Handled::Dropped(reason),
        },
        (ConnectionState::Open, StreamEventView::Binary) => Handled::Skipped,
        (ConnectionState::Open, StreamEventView::Ended) => Handled::Disconnected,
        (ConnectionState::Open, StreamEventView::Failed) => Handled::Disconnected,
        _ => Handled::Unexpected,
    }
}

/// The address of the stream for a page: the page's host, the path `/ws`,
/// and the secure scheme exactly where the page itself is secure.
pub open spec fn endpoint_of(protocol: Seq<char>, host: Seq<char>) -> Seq<char> {
    (if protocol == "https:"@ {
        "wss:"@
    } else {
        "ws:"@
    }) + "//"@ + host + "/ws"@
}

/// The address of the stream for the page with this protocol (`http:`,
/// `https:`) and host.
pub fn stream_endpoint(protocol: &str, host: &str) -> (uri: String)
    ensures
        uri@ == endpoint_of(protocol@, host@),
{
    let mut uri = String::new();
    if text_is(protocol, "https:") {
        uri.append("wss:");
    } else {
        uri.append("ws:");
    }
    uri.append("//");
    uri.append(host);
    uri.append("/ws");
    uri
}

/// The connection manager.
pub struct ConnectionManager {
    state: ConnectionState,
}

impl View for ConnectionManager {
    type V = ConnectionState;

    closed spec fn view(&self) -> ConnectionState {
        self.state
    }
}

impl ConnectionManager {
    /// A manager that is about to open the stream for the first time.
    pub fn new() -> (manager: Self)
        ensures
            manager@ == ConnectionState::Connecting,
    {
        ConnectionManager { state: ConnectionState::Connecting }
    }

    /// The state the manager is in.
    pub fn state(&self) -> (state: ConnectionState)
        ensures
            state == self@,
    {
        self.state
    }

    /// Says what the driver does next. A manager whose stream is closed or
    /// faulted goes back to connecting on the way.
    pub fn advance(&mut self) -> (step: NextStep)
        ensures
            final(self)@ == old(self)@.resumed(),
            step == old(self)@.next_step(),
    {
        match self.state {
            ConnectionState::Open => NextStep::AwaitFrame,
            _ => {
                self.state = ConnectionState::Connecting;
                NextStep::OpenStream
            },
        }
    }

    /// Takes in what the driver reports.
    ///
    /// While connecting: a stream that opened makes the manager open and
    /// gives its outgoing half to the arbiter; a stream that did not open
    /// leaves the manager connecting. While open: a frame of text goes to the
    /// container, which takes in the message it carries or drops the frame;
    /// a frame that is not text is passed over; the end of the stream makes
    /// the manager closed, a failure makes it faulted, and either takes the
    /// outgoing half away from the arbiter. Every other event changes
    /// nothing.
    pub fn handle<W>(
        &mut self,
        event: StreamEvent<W>,
        writer: &mut WriterArbiter<W>,
        container: &mut StateContainer,
    ) -> (handled: Handled)
        ensures
            final(self)@ == state_after(old(self)@, event@),
            final(writer)@ == slot_after(old(self)@, old(writer)@, event@),
            final(container)@ == container_after(old(self)@, old(container)@, event@),
            handled == report_of(old(self)@, event@),
    {
        match self.state {
            ConnectionState::Connecting => match event {
                StreamEvent::Opened(fresh) => {
                    writer.publish(fresh);
                    self.state = ConnectionState::Open;
                    Handled::Connected
                },
                StreamEvent::OpenFailed => Handled::Retrying,
                _ => Handled::Unexpected,
            },
            ConnectionState::Open => match event {
                StreamEvent::Text(frame) => match container.ingest(frame.as_str()) {
                    Ok(_) => Handled::Applied,
                    Err(reason) => Handled::Dropped(reason),
                },
                StreamEvent::Binary => Handled::Skipped,
                StreamEvent::Ended => {
                    writer.retire();
                    self.state = ConnectionState::Closed;
                    Handled::Disconnected
                },
                StreamEvent::Failed => {
                    writer.retire();
                    self.state = ConnectionState::Faulted;
                    Handled::Disconnected
                },
                _ => Handled::Unexpected,
            },
            _ => Handled::Unexpected,
        }
    }
}

/// A stream that drops is opened again, and delivery resumes: from the open
/// state, the end or the failure of the stream leads to closed or faulted
/// and leaves no handle in the slot of the arbiter, the next step from there
/// is to open the stream, and once the new stream is open its outgoing half
/// is with the arbiter and a frame that carries a full game state makes that
/// state the snapshot, whatever the snapshot was.
pub proof fn lemma_reconnect_resumes_delivery<W>(
    lost: StreamEventView<W>,
    slot: WriterSlot<W>,
    container: StateContainerView,
    writer: W,
    frame: Seq<char>,
    full: ClientGameStateView,
)
    requires
        lost is Ended || lost is Failed,
    ensures
        ({
            let down = state_after(ConnectionState::Open, lost);
            let up = state_after(down.resumed(), StreamEventView::Opened(writer));
            &&& down is Closed || down is Faulted
            &&& !(slot_after(ConnectionState::Open, slot, lost) is Occupied)
            &&& down.resumed() is Connecting
            &&& down.next_step() is OpenStream
            &&& up is Open
            &&& up.next_step() is AwaitFrame
            &&& slot_after(down.resumed(), slot, StreamEventView::Opened(writer))
                == WriterSlot::Occupied(writer)
            &&& frame_message(frame) == Ok::<ServerMessageView, DecodeError>(
                ServerMessageView::GameState(full),
            ) ==> container_after(up, container, StreamEventView::<W>::Text(frame)).snapshot
                == full
        }),
{
}

/// The manager never comes to rest: whatever state it is in, the driver has
/// a next step, and from closed or faulted that step is to open the stream.
pub proof fn lemma_always_a_next_step(state: ConnectionState)
    ensures
        state.resumed() is Connecting || state.resumed() is Open,
        state.next_step() is OpenStream <==> !(state is Open),
{
}

/// The life of a stream has these steps and no others: an event takes the
/// manager from connecting to open, from open to closed or faulted, or
/// leaves it where it is; and the next step of the driver takes it from
/// closed or faulted to connecting, whatever else holds.
pub proof fn lemma_steps_of_the_stream<W>(state: ConnectionState, event: StreamEventView<W>)
    ensures
        ({
            let next = state_after(state, event);
            ||| next == state
            ||| state is Connecting && next is Open && event is Opened
            ||| state is Open && next is Closed && event is Ended
            ||| state is Open && next is Faulted && event is Failed
        }),
        state is Closed || state is Faulted ==> state.resumed() is Connecting,
        state is Connecting || state is Open ==> state.resumed() == state,
{
}

} // verus!
