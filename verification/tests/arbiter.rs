use acronymia::arbiter::{SendOutcome, SendPermit, WriterArbiter};
use acronymia::model::{ClientMessage, GameConfig, LetterRange, Player};
use acronymia::outbox::{begin_message, Dispatch};

#[derive(Debug, PartialEq, Eq)]
struct Handle(u32);

fn kick(id: &str) -> ClientMessage {
    ClientMessage::KickPlayer(id.to_string())
}

#[test]
fn new_arbiter_has_no_connection() {
    let mut arbiter: WriterArbiter<Handle> = WriterArbiter::new();
    assert_eq!(arbiter.begin_send(), SendPermit::Refused(SendOutcome::NoConnection));
    assert_eq!(arbiter.begin_send(), SendPermit::Refused(SendOutcome::NoConnection));
}

#[test]
fn published_handle_is_granted_once() {
    let mut arbiter = WriterArbiter::new();
    arbiter.publish(Handle(1));
    assert_eq!(arbiter.begin_send(), SendPermit::Granted(Handle(1)));
    assert_eq!(arbiter.begin_send(), SendPermit::Refused(SendOutcome::Busy));
}

#[test]
fn two_senders_before_the_first_completes() {
    let mut arbiter = WriterArbiter::new();
    arbiter.publish(Handle(7));
    let first = arbiter.begin_send();
    let second = arbiter.begin_send();
    let third = arbiter.begin_send();
    assert_eq!(second, SendPermit::Refused(SendOutcome::Busy));
    assert_eq!(third, SendPermit::Refused(SendOutcome::Busy));
    let handle = match first {
        SendPermit::Granted(handle) => handle,
        SendPermit::Refused(outcome) => panic!("{outcome:?}"),
    };
    assert_eq!(arbiter.end_send(handle, true), SendOutcome::Sent);
    assert_eq!(arbiter.begin_send(), SendPermit::Granted(Handle(7)));
}

#[test]
fn failed_send_leaves_no_connection() {
    let mut arbiter = WriterArbiter::new();
    arbiter.publish(Handle(1));
    let handle = match arbiter.begin_send() {
        SendPermit::Granted(handle) => handle,
        SendPermit::Refused(outcome) => panic!("{outcome:?}"),
    };
    assert_eq!(arbiter.end_send(handle, false), SendOutcome::NoConnection);
    assert_eq!(arbiter.begin_send(), SendPermit::Refused(SendOutcome::NoConnection));
    arbiter.publish(Handle(2));
    assert_eq!(arbiter.begin_send(), SendPermit::Granted(Handle(2)));
}

#[test]
fn publish_replaces_the_handle() {
    let mut arbiter = WriterArbiter::new();
    arbiter.publish(Handle(1));
    arbiter.publish(Handle(2));
    assert_eq!(arbiter.begin_send(), SendPermit::Granted(Handle(2)));
    arbiter.publish(Handle(3));
    assert_eq!(arbiter.begin_send(), SendPermit::Granted(Handle(3)));
}

#[test]
fn failed_send_keeps_a_handle_published_meanwhile() {
    let mut arbiter = WriterArbiter::new();
    arbiter.publish(Handle(1));
    let old = match arbiter.begin_send() {
        SendPermit::Granted(handle) => handle,
        SendPermit::Refused(outcome) => panic!("{outcome:?}"),
    };
    arbiter.publish(Handle(2));
    assert_eq!(arbiter.end_send(old, false), SendOutcome::NoConnection);
    assert_eq!(arbiter.begin_send(), SendPermit::Granted(Handle(2)));
}

#[test]
fn successful_send_keeps_a_handle_published_meanwhile() {
    let mut arbiter = WriterArbiter::new();
    arbiter.publish(Handle(1));
    let old = match arbiter.begin_send() {
        SendPermit::Granted(handle) => handle,
        SendPermit::Refused(outcome) => panic!("{outcome:?}"),
    };
    arbiter.publish(Handle(2));
    assert_eq!(arbiter.end_send(old, true), SendOutcome::Sent);
    assert_eq!(arbiter.begin_send(), SendPermit::Granted(Handle(2)));
    assert_eq!(arbiter.begin_send(), SendPermit::Refused(SendOutcome::Busy));
}

#[test]
fn successful_send_puts_its_handle_back() {
    let mut arbiter = WriterArbiter::new();
    assert_eq!(arbiter.end_send(Handle(4), true), SendOutcome::Sent);
    assert_eq!(arbiter.begin_send(), SendPermit::Granted(Handle(4)));
}

#[test]
fn retire_drops_the_handle_in_the_slot() {
    let mut arbiter = WriterArbiter::new();
    arbiter.retire();
    assert_eq!(arbiter.begin_send(), SendPermit::Refused(SendOutcome::NoConnection));
    arbiter.publish(Handle(1));
    arbiter.retire();
    assert_eq!(arbiter.begin_send(), SendPermit::Refused(SendOutcome::NoConnection));
}

#[test]
fn retire_leaves_a_send_in_flight() {
    let mut arbiter = WriterArbiter::new();
    arbiter.publish(Handle(1));
    let handle = match arbiter.begin_send() {
        SendPermit::Granted(handle) => handle,
        SendPermit::Refused(outcome) => panic!("{outcome:?}"),
    };
    arbiter.retire();
    assert_eq!(arbiter.begin_send(), SendPermit::Refused(SendOutcome::Busy));
    assert_eq!(arbiter.end_send(handle, false), SendOutcome::NoConnection);
    assert_eq!(arbiter.begin_send(), SendPermit::Refused(SendOutcome::NoConnection));
}

#[test]
fn message_becomes_a_frame_when_the_handle_is_there() {
    let mut arbiter = WriterArbiter::new();
    arbiter.publish(Handle(9));
    assert_eq!(
        begin_message(&mut arbiter, &kick("b")),
        Dispatch::Transmit {
            writer: Handle(9),
            frame: r#"{"type":"KickPlayer","payload":"b"}"#.to_string()
        }
    );
    assert_eq!(begin_message(&mut arbiter, &kick("c")), Dispatch::Dropped(SendOutcome::Busy));
    assert_eq!(arbiter.end_send(Handle(9), true), SendOutcome::Sent);
    let join = ClientMessage::JoinGame(Player { id: "a".to_string(), name: "Ann".to_string() });
    assert_eq!(
        begin_message(&mut arbiter, &join),
        Dispatch::Transmit {
            writer: Handle(9),
            frame: r#"{"type":"JoinGame","payload":{"id":"a","name":"Ann"}}"#.to_string()
        }
    );
}

#[test]
fn message_is_dropped_without_connection() {
    let mut arbiter: WriterArbiter<Handle> = WriterArbiter::new();
    let start = ClientMessage::StartGame(GameConfig {
        letters_per_acronym: LetterRange { min: 2, max: 4 },
    });
    assert_eq!(begin_message(&mut arbiter, &start), Dispatch::Dropped(SendOutcome::NoConnection));
    arbiter.publish(Handle(1));
    match begin_message(&mut arbiter, &start) {
        Dispatch::Transmit { writer, .. } => {
            assert_eq!(arbiter.end_send(writer, false), SendOutcome::NoConnection);
        }
        other => panic!("{other:?}"),
    }
    assert_eq!(begin_message(&mut arbiter, &start), Dispatch::Dropped(SendOutcome::NoConnection));
}
