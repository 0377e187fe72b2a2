//! Writing the frames that the client sends.
//!
//! A frame is one JSON object on one line, without white space:
//! `{"type":"<name of the variant>","payload":<what the message holds>}`.
//!
//! | message      | `type`       | `payload`                                   |
//! |--------------|--------------|---------------------------------------------|
//! | `JoinGame`   | `JoinGame`   | `{"id":..,"name":..}`                       |
//! | `KickPlayer` | `KickPlayer` | the identity, a string                      |
//! | `StartGame`  | `StartGame`  | `{"lettersPerAcronym":{"min":..,"max":..}}` |
//! | `Gameplay`   | `Gameplay`   | `{"action":..,"text":..}`                   |
//!
//! The name of the variant is a word of this crate and is written as it
//! stands. Every text that comes from outside is written by `serde_json`,
//! which escapes what JSON wants escaped.

use vstd::prelude::*;

use crate::json::{in_quotes, json_quoted, plain_text, quote_json};
use crate::model::{ClientMessage, ClientMessageView, GameConfig, Player, PlayerView};

verus! {

/// The character that stands for a digit.
pub open spec fn digit_char(digit: nat) -> char {
    if digit == 0 {
        '0'
    } else if digit == 1 {
        '1'
    } else if digit == 2 {
        '2'
    } else if digit == 3 {
        '3'
    } else if digit == 4 {
        '4'
    } else if digit == 5 {
        '5'
    } else if digit == 6 {
        '6'
    } else if digit == 7 {
        '7'
    } else if digit == 8 {
        '8'
    } else {
        '9'
    }
}

/// A number in decimal digits, without leading zeros.
pub open spec fn decimal(n: nat) -> Seq<char>
    decreases n,
{
    if n < 10 {
        seq![digit_char(n)]
    } else {
        decimal(n / 10).push(digit_char(n % 10))
    }
}

/// A text as a JSON string: between double quotes as it is where it needs
/// no escaping, else as `serde_json` writes it.
pub open spec fn quoted(text: Seq<char>) -> Seq<char> {
    if plain_text(text) {
        in_quotes(text)
    } else {
        json_quoted(text)
    }
}

/// The word that names the variant of a message on the wire.
pub open spec fn discriminant(message: ClientMessageView) -> Seq<char> {
    match message {
        ClientMessageView::JoinGame(_) => "JoinGame"@,
        ClientMessageView::KickPlayer(_) => "KickPlayer"@,
        ClientMessageView::StartGame(_) => "StartGame"@,
        ClientMessageView::Gameplay { .. } => "Gameplay"@,
    }
}

/// Two messages are of one variant.
pub open spec fn same_variant(a: ClientMessageView, b: ClientMessageView) -> bool {
    match (a, b) {
        (ClientMessageView::JoinGame(_), ClientMessageView::JoinGame(_)) => true,
        (ClientMessageView::KickPlayer(_), ClientMessageView::KickPlayer(_)) => true,
        (ClientMessageView::StartGame(_), ClientMessageView::StartGame(_)) => true,
        (ClientMessageView::Gameplay { .. }, ClientMessageView::Gameplay { .. }) => true,
        _ => false,
    }
}

/// A player as a JSON object.
pub open spec fn player_json(player: PlayerView) -> Seq<char> {
    "{\"id\":"@ + quoted(player.id) + ",\"name\":"@ + quoted(player.name) + "}"@
}

/// A configuration as a JSON object.
pub open spec fn config_json(config: GameConfig) -> Seq<char> {
    "{\"lettersPerAcronym\":{\"min\":"@ + decimal(config.letters_per_acronym.min as nat)
        + ",\"max\":"@ + decimal(config.letters_per_acronym.max as nat) + "}}"@
}

/// A gameplay action as a JSON object.
pub open spec fn action_json(action: Seq<char>, text: Seq<char>) -> Seq<char> {
    "{\"action\":"@ + quoted(action) + ",\"text\":"@ + quoted(text) + "}"@
}

/// What a message holds, as JSON.
pub open spec fn payload_json(message: ClientMessageView) -> Seq<char> {
    match message {
        ClientMessageView::JoinGame(player) => player_json(player),
        ClientMessageView::KickPlayer(id) => quoted(id),
        ClientMessageView::StartGame(config) => config_json(config),
        ClientMessageView::Gameplay { action, text } => action_json(action, text),
    }
}

/// The beginning of a frame: all that stands before the payload.
pub open spec fn frame_head(message: ClientMessageView) -> Seq<char> {
    "{\"type\":\""@ + discriminant(message) + "\",\"payload\":"@
}

/// The frame that carries a message of the client.
pub open spec fn client_frame(message: ClientMessageView) -> Seq<char> {
    frame_head(message) + payload_json(message) + "}"@
}

fn digit_text(digit: u64) -> (text: &'static str)
    requires
        digit < 10,
    ensures
        text@ == seq![digit_char(digit as nat)],
{
    proof {
        reveal_strlit("0");
        reveal_strlit("1");
        reveal_strlit("2");
        reveal_strlit("3");
        reveal_strlit("4");
        reveal_strlit("5");
        reveal_strlit("6");
        reveal_strlit("7");
        reveal_strlit("8");
        reveal_strlit("9");
    }
    let text = if digit == 0 {
        "0"
    } else if digit == 1 {
        "1"
    } else if digit == 2 {
        "2"
    } else if digit == 3 {
        "3"
    } else if digit == 4 {
        "4"
    } else if digit == 5 {
        "5"
    } else if digit == 6 {
        "6"
    } else if digit == 7 {
        "7"
    } else if digit == 8 {
        "8"
    } else {
        "9"
    };
    text
}

fn push_decimal(out: &mut String, n: u64)
    ensures
        final(out)@ == old(out)@ + decimal(n as nat),
    decreases n,
{
    if n >= 10 {
        push_decimal(out, n / 10);
    }
    out.append(digit_text(n % 10));
}

fn push_quoted(out: &mut String, text: &str)
    ensures
        final(out)@ == old(out)@ + quoted(text@),
{
    match quote_json(text) {
        Ok(literal) => out.append(literal.as_str()),
        // `quote_json` always gives a literal
        Err(_) => {},
    }
}

fn push_player(out: &mut String, player: &Player)
    ensures
        final(out)@ == old(out)@ + player_json(player@),
{
    out.append("{\"id\":");
    push_quoted(out, player.id.as_str());
    out.append(",\"name\":");
    push_quoted(out, player.name.as_str());
    out.append("}");
}

fn push_config(out: &mut String, config: &GameConfig)
    ensures
        final(out)@ == old(out)@ + config_json(*config),
{
    out.append("{\"lettersPerAcronym\":{\"min\":");
    push_decimal(out, config.letters_per_acronym.min as u64);
    out.append(",\"max\":");
    push_decimal(out, config.letters_per_acronym.max as u64);
    out.append("}}");
}

fn push_action(out: &mut String, action: &str, text: &str)
    ensures
        final(out)@ == old(out)@ + action_json(action@, text@),
{
    out.append("{\"action\":");
    push_quoted(out, action);
    out.append(",\"text\":");
    push_quoted(out, text);
    out.append("}");
}

/// Writes the frame that carries a message of the client.
///
/// The frame names the variant of the message by a word of its own, so that
/// no two messages of different variants share a frame (see
/// [`lemma_frame_tells_variant`]). What else a frame tells is in
/// [`crate::framing`].
pub fn encode(message: &ClientMessage) -> (frame: String)
    ensures
        frame@ == client_frame(message@),
{
    let mut out = String::new();
    out.append("{\"type\":\"");
    match message {
        ClientMessage::JoinGame(player) => {
            out.append("JoinGame");
            out.append("\",\"payload\":");
            push_player(&mut out, player);
        },
        ClientMessage::KickPlayer(id) => {
            out.append("KickPlayer");
            out.append("\",\"payload\":");
            push_quoted(&mut out, id.as_str());
        },
        ClientMessage::StartGame(config) => {
            out.append("StartGame");
            out.append("\",\"payload\":");
            push_config(&mut out, config);
        },
        ClientMessage::Gameplay { action, text } => {
            out.append("Gameplay");
            out.append("\",\"payload\":");
            push_action(&mut out, action.as_str(), text.as_str());
        },
    }
    out.append("}");
    out
}

/// The word on the wire tells the variant: two messages have the same
/// discriminant exactly if they are of one variant.
pub proof fn lemma_discriminant_tells_variant(a: ClientMessageView, b: ClientMessageView)
    ensures
        discriminant(a) == discriminant(b) <==> same_variant(a, b),
{
    reveal_strlit("JoinGame");
    reveal_strlit("KickPlayer");
    reveal_strlit("StartGame");
    reveal_strlit("Gameplay");
    assert("JoinGame"@[0] == 'J');
    assert("KickPlayer"@[0] == 'K');
    assert("StartGame"@[0] == 'S');
    assert("Gameplay"@[0] == 'G');
}

/// The frame tells the variant: two messages of different variants have
/// different frames, whatever they hold.
pub proof fn lemma_frame_tells_variant(a: ClientMessageView, b: ClientMessageView)
    ensures
        client_frame(a) == client_frame(b) ==> same_variant(a, b),
{
    lemma_discriminant_starts_frame(a);
    lemma_discriminant_starts_frame(b);
    lemma_discriminant_tells_variant(a, b);
    reveal_strlit("JoinGame");
    reveal_strlit("KickPlayer");
    reveal_strlit("StartGame");
    reveal_strlit("Gameplay");
    assert("JoinGame"@[0] == 'J');
    assert("KickPlayer"@[0] == 'K');
    assert("StartGame"@[0] == 'S');
    assert("Gameplay"@[0] == 'G');
}

/// A frame begins with `{"type":"` and the first letter of the discriminant.
proof fn lemma_discriminant_starts_frame(message: ClientMessageView)
    ensures
        client_frame(message).len() > 9,
        client_frame(message)[9] == discriminant(message)[0],
        discriminant(message).len() > 0,
{
    reveal_strlit("{\"type\":\"");
    reveal_strlit("JoinGame");
    reveal_strlit("KickPlayer");
    reveal_strlit("StartGame");
    reveal_strlit("Gameplay");
    let head = "{\"type\":\""@ + discriminant(message);
    assert(head.len() > 9);
    assert(head[9] == discriminant(message)[0]);
    let more = head + "\",\"payload\":"@;
    assert(more[9] == head[9]);
    let most = more + payload_json(message);
    assert(most[9] == more[9]);
}

} // verus!
