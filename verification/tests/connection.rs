use acronymia::arbiter::{SendOutcome, SendPermit, WriterArbiter};
use acronymia::connection::{
    stream_endpoint, ConnectionManager, ConnectionState, Handled, NextStep, StreamEvent,
};
use acronymia::container::StateContainer;
use acronymia::decode::DecodeError;
use acronymia::model::{ClientGameState, GameConfig, GameStep, LetterRange, Player};

#[derive(Debug, PartialEq, Eq)]
struct Handle(u32);

const JOINED: &str = r#"{"type":"PlayerJoined","payload":{"id":"a","name":"Ann"}}"#;

const FULL: &str = r#"{"type":"GameState","payload":{"step":"Judging",
    "players":[{"id":"b","name":"Bob"}],"timer":8,"submissionCount":3,
    "config":{"lettersPerAcronym":{"min":2,"max":4}}}}"#;

fn full_state() -> ClientGameState {
    ClientGameState {
        step: GameStep::Judging,
        players: vec![Player { id: "b".to_string(), name: "Bob".to_string() }],
        round_winner: None,
        timer: Some(8),
        submission_count: 3,
        config: GameConfig { letters_per_acronym: LetterRange { min: 2, max: 4 } },
    }
}

struct Session {
    manager: ConnectionManager,
    arbiter: WriterArbiter<Handle>,
    container: StateContainer,
}

impl Session {
    fn new() -> Session {
        Session {
            manager: ConnectionManager::new(),
            arbiter: WriterArbiter::new(),
            container: StateContainer::new(),
        }
    }

    fn handle(&mut self, event: StreamEvent<Handle>) -> Handled {
        self.manager.handle(event, &mut self.arbiter, &mut self.container)
    }

    fn open(handle: u32) -> Session {
        let mut session = Session::new();
        assert_eq!(session.manager.advance(), NextStep::OpenStream);
        assert_eq!(session.handle(StreamEvent::Opened(Handle(handle))), Handled::Connected);
        session
    }
}

#[test]
fn endpoint_follows_the_page() {
    assert_eq!(stream_endpoint("https:", "play.example.org"), "wss://play.example.org/ws");
    assert_eq!(stream_endpoint("http:", "localhost:3000"), "ws://localhost:3000/ws");
    assert_eq!(stream_endpoint("file:", ""), "ws:///ws");
    assert_eq!(stream_endpoint("https", "h"), "ws://h/ws");
    assert_eq!(stream_endpoint("HTTPS:", "h"), "ws://h/ws");
}

#[test]
fn manager_starts_connecting() {
    let mut manager = ConnectionManager::new();
    assert_eq!(manager.state(), ConnectionState::Connecting);
    assert_eq!(manager.advance(), NextStep::OpenStream);
    assert_eq!(manager.state(), ConnectionState::Connecting);
}

#[test]
fn opened_stream_publishes_its_writer() {
    let mut session = Session::new();
    assert_eq!(session.arbiter.begin_send(), SendPermit::Refused(SendOutcome::NoConnection));
    assert_eq!(session.handle(StreamEvent::Opened(Handle(1))), Handled::Connected);
    assert_eq!(session.manager.state(), ConnectionState::Open);
    assert_eq!(session.manager.advance(), NextStep::AwaitFrame);
    assert_eq!(session.manager.state(), ConnectionState::Open);
    assert_eq!(session.arbiter.begin_send(), SendPermit::Granted(Handle(1)));
}

#[test]
fn failed_open_is_tried_again() {
    let mut session = Session::new();
    for _ in 0..3 {
        assert_eq!(session.manager.advance(), NextStep::OpenStream);
        assert_eq!(session.manager.state(), ConnectionState::Connecting);
        assert_eq!(session.handle(StreamEvent::OpenFailed), Handled::Retrying);
        assert_eq!(session.manager.state(), ConnectionState::Connecting);
        assert_eq!(session.arbiter.begin_send(), SendPermit::Refused(SendOutcome::NoConnection));
    }
    assert_eq!(session.manager.advance(), NextStep::OpenStream);
    assert_eq!(session.handle(StreamEvent::Opened(Handle(2))), Handled::Connected);
    assert_eq!(session.manager.state(), ConnectionState::Open);
}

#[test]
fn text_frames_are_folded_into_the_snapshot() {
    let mut session = Session::open(1);
    assert_eq!(session.handle(StreamEvent::Text(JOINED.to_string())), Handled::Applied);
    assert_eq!(
        session.container.snapshot().players,
        vec![Player { id: "a".to_string(), name: "Ann".to_string() }]
    );
    assert_eq!(session.manager.state(), ConnectionState::Open);
    assert_eq!(session.manager.advance(), NextStep::AwaitFrame);
}

#[test]
fn bad_frames_are_dropped_and_the_stream_stays_open() {
    let mut session = Session::open(1);
    session.handle(StreamEvent::Text(FULL.to_string()));
    for (frame, reason) in [
        ("garbage", DecodeError::Syntax),
        ("[]", DecodeError::NoDiscriminant),
        (r#"{"type":"Bogus"}"#, DecodeError::UnknownDiscriminant),
        (r#"{"type":"PlayerJoined","payload":3}"#, DecodeError::MalformedPayload),
    ] {
        assert_eq!(session.handle(StreamEvent::Text(frame.to_string())), Handled::Dropped(reason));
        assert_eq!(session.manager.state(), ConnectionState::Open);
        assert_eq!(*session.container.snapshot(), full_state());
    }
    assert_eq!(session.handle(StreamEvent::Binary), Handled::Skipped);
    assert_eq!(session.manager.state(), ConnectionState::Open);
    assert_eq!(*session.container.snapshot(), full_state());
    assert_eq!(session.arbiter.begin_send(), SendPermit::Granted(Handle(1)));
}

#[test]
fn end_of_stream_closes_and_failure_faults() {
    let mut session = Session::open(1);
    assert_eq!(session.handle(StreamEvent::Ended), Handled::Disconnected);
    assert_eq!(session.manager.state(), ConnectionState::Closed);
    let mut session = Session::open(1);
    assert_eq!(session.handle(StreamEvent::Failed), Handled::Disconnected);
    assert_eq!(session.manager.state(), ConnectionState::Faulted);
}

#[test]
fn reconnect_resumes_delivery() {
    for lost in [StreamEvent::Ended, StreamEvent::Failed] {
        let mut session = Session::open(1);
        session.handle(StreamEvent::Text(JOINED.to_string()));
        assert_eq!(session.handle(lost), Handled::Disconnected);
        assert_eq!(session.arbiter.begin_send(), SendPermit::Refused(SendOutcome::NoConnection));
        assert_eq!(session.container.snapshot().players.len(), 1);
        assert_eq!(session.manager.advance(), NextStep::OpenStream);
        assert_eq!(session.manager.state(), ConnectionState::Connecting);
        assert_eq!(session.handle(StreamEvent::Opened(Handle(2))), Handled::Connected);
        assert_eq!(session.manager.advance(), NextStep::AwaitFrame);
        assert_eq!(session.handle(StreamEvent::Text(FULL.to_string())), Handled::Applied);
        assert_eq!(*session.container.snapshot(), full_state());
        assert_eq!(session.arbiter.begin_send(), SendPermit::Granted(Handle(2)));
    }
}

#[test]
fn lost_stream_does_not_disturb_a_send_in_flight() {
    let mut session = Session::open(1);
    let handle = match session.arbiter.begin_send() {
        SendPermit::Granted(handle) => handle,
        SendPermit::Refused(outcome) => panic!("{outcome:?}"),
    };
    session.handle(StreamEvent::Failed);
    assert_eq!(session.arbiter.begin_send(), SendPermit::Refused(SendOutcome::Busy));
    assert_eq!(session.arbiter.end_send(handle, false), SendOutcome::NoConnection);
    assert_eq!(session.arbiter.begin_send(), SendPermit::Refused(SendOutcome::NoConnection));
}

#[test]
fn events_out_of_place_change_nothing() {
    let mut session = Session::new();
    for event in [
        StreamEvent::Text(FULL.to_string()),
        StreamEvent::Binary,
        StreamEvent::Ended,
        StreamEvent::Failed,
    ] {
        assert_eq!(session.handle(event), Handled::Unexpected);
        assert_eq!(session.manager.state(), ConnectionState::Connecting);
        assert_eq!(*session.container.snapshot(), ClientGameState::default());
    }
    assert_eq!(session.arbiter.begin_send(), SendPermit::Refused(SendOutcome::NoConnection));

    let mut session = Session::open(1);
    assert_eq!(session.handle(StreamEvent::Opened(Handle(2))), Handled::Unexpected);
    assert_eq!(session.handle(StreamEvent::OpenFailed), Handled::Unexpected);
    assert_eq!(session.manager.state(), ConnectionState::Open);
    assert_eq!(session.arbiter.begin_send(), SendPermit::Granted(Handle(1)));

    for lost in [StreamEvent::Ended, StreamEvent::Failed] {
        let mut session = Session::open(1);
        session.handle(lost);
        let down = session.manager.state();
        for event in [
            StreamEvent::Opened(Handle(3)),
            StreamEvent::OpenFailed,
            StreamEvent::Text(FULL.to_string()),
            StreamEvent::Binary,
            StreamEvent::Ended,
            StreamEvent::Failed,
        ] {
            assert_eq!(session.handle(event), Handled::Unexpected);
            assert_eq!(session.manager.state(), down);
            assert_eq!(*session.container.snapshot(), ClientGameState::default());
        }
        assert_eq!(session.arbiter.begin_send(), SendPermit::Refused(SendOutcome::NoConnection));
    }
}
