//! Reading the frames of the server.
//!
//! A frame is one JSON object. Its member `type` names the message, its
//! member `payload` carries what the message holds:
//!
//! | `type`                     | `payload`                              |
//! |----------------------------|----------------------------------------|
//! | `GameState`                | a snapshot                             |
//! | `PlayerJoined`             | a player: `{"id": .., "name": ..}`     |
//! | `ShowRoundWinner`          | the winner's identity, a string        |
//! | `IncrementSubmissionCount` | none                                   |
//! | `UpdateRemainingTime`      | seconds, or `null`, or left out        |
//!
//! A snapshot is an object with the members `step` (the name of the phase),
//! `players` (an array of players), `submissionCount` (a number) and `config`
//! (`{"lettersPerAcronym": {"min": .., "max": ..}}`), and with the optional
//! members `roundWinner` (a string) and `timer` (seconds). Numbers are
//! integers from zero up. Members that are not named here are passed over.

use vstd::prelude::*;

use crate::json::{json_member, json_of, json_parsed, parse_json, Json};
use crate::text::text_is;
use crate::model::{
    optional_text, roster_view, ClientGameState, ClientGameStateView, GameConfig, GameStep,
    LetterRange, Player, PlayerView, ServerMessage, ServerMessageView,
};

verus! {

/// Why a frame gave no message.
#[derive(Clone, Copy, Debug, PartialEq, Eq, Structural)]
pub enum DecodeError {
    /// The frame is not JSON.
    Syntax,
    /// The frame is no object, or has no member `type`, or one that is no
    /// string.
    NoDiscriminant,
    /// The member `type` names no message of the server.
    UnknownDiscriminant,
    /// The payload does not have the form that the message asks for.
    MalformedPayload,
}

/// The member `name` of a JSON object; `None` if the value is no object or
/// has no such member.
pub open spec fn member_of(value: Json, name: Seq<char>) -> Option<Json> {
    match value {
        Json::Record(members) => if members.contains_key(name) {
            Some(members[name])
        } else {
            None
        },
        _ => None,
    }
}

/// A member that has to be a string.
pub open spec fn text_of(found: Option<Json>) -> Option<Seq<char>> {
    match found {
        Some(Json::Text(chars)) => Some(chars),
        _ => None,
    }
}

/// A member that may be a string, `null`, or left out. The outer `None`
/// stands for any other value.
pub open spec fn optional_text_of(found: Option<Json>) -> Option<Option<Seq<char>>> {
    match found {
        None => Some(None),
        Some(Json::Null) => Some(None),
        Some(Json::Text(chars)) => Some(Some(chars)),
        _ => None,
    }
}

/// A member that has to be a number that `u64` holds.
pub open spec fn count_of(found: Option<Json>) -> Option<u64> {
    match found {
        Some(Json::Unsigned(n)) => Some(n),
        _ => None,
    }
}

/// A member that has to be a number that `u32` holds.
pub open spec fn small_count_of(found: Option<Json>) -> Option<u32> {
    match found {
        Some(Json::Unsigned(n)) => if n <= u32::MAX {
            Some(n as u32)
        } else {
            None
        },
        _ => None,
    }
}

/// A member that may be a number that `u32` holds, `null`, or left out. The
/// outer `None` stands for any other value.
pub open spec fn optional_seconds_of(found: Option<Json>) -> Option<Option<u32>> {
    match found {
        None => Some(None),
        Some(Json::Null) => Some(None),
        Some(other) => match small_count_of(Some(other)) {
            Some(n) => Some(Some(n)),
            None => None,
        },
    }
}

/// A member that has to name a phase of the game.
pub open spec fn step_of(found: Option<Json>) -> Option<GameStep> {
    match text_of(found) {
        Some(name) => if name == "Setup"@ {
            Some(GameStep::Setup)
        } else if name == "Submission"@ {
            Some(GameStep::Submission)
        } else if name == "Judging"@ {
            Some(GameStep::Judging)
        } else if name == "Results"@ {
            Some(GameStep::Results)
        } else {
            None
        },
        None => None,
    }
}

/// A player: an object whose members `id` and `name` are strings.
pub open spec fn player_of(value: Json) -> Option<PlayerView> {
    match (text_of(member_of(value, "id"@)), text_of(member_of(value, "name"@))) {
        (Some(id), Some(name)) => Some(PlayerView { id, name }),
        _ => None,
    }
}

/// A roster: an array whose elements are players.
pub open spec fn roster_of(found: Option<Json>) -> Option<Seq<PlayerView>> {
    match found {
        Some(Json::List(items)) => if forall|i: int|
            0 <= i < items.len() ==> (#[trigger] player_of(items[i])) is Some {
            Some(items.map_values(|item: Json| player_of(item).unwrap()))
        } else {
            None
        },
        _ => None,
    }
}

/// A configuration: `{"lettersPerAcronym": {"min": .., "max": ..}}`.
pub open spec fn config_of(found: Option<Json>) -> Option<GameConfig> {
    match found {
        Some(value) => {
            let letters = member_of(value, "lettersPerAcronym"@);
            match letters {
                Some(range) => match (
                    small_count_of(member_of(range, "min"@)),
                    small_count_of(member_of(range, "max"@)),
                ) {
                    (Some(min), Some(max)) => Some(
                        GameConfig { letters_per_acronym: LetterRange { min, max } },
                    ),
                    _ => None,
                },
                None => None,
            }
        },
        None => None,
    }
}

/// A snapshot: an object with the members that the head of this file lists.
pub open spec fn snapshot_of(found: Option<Json>) -> Option<ClientGameStateView> {
    match found {
        Some(value) => match (
            step_of(member_of(value, "step"@)),
            roster_of(member_of(value, "players"@)),
            optional_text_of(member_of(value, "roundWinner"@)),
            optional_seconds_of(member_of(value, "timer"@)),
            count_of(member_of(value, "submissionCount"@)),
            config_of(member_of(value, "config"@)),
        ) {
            (
                Some(step),
                Some(players),
                Some(round_winner),
                Some(timer),
                Some(submission_count),
                Some(config),
            ) => Some(
                ClientGameStateView {
                    step,
                    players,
                    round_winner,
                    timer,
                    submission_count,
                    config,
                },
            ),
            _ => None,
        },
        None => None,
    }
}

/// The message that a payload gives under the discriminant `kind`.
pub open spec fn message_of(kind: Seq<char>, payload: Option<Json>) -> Result<
    ServerMessageView,
    DecodeError,
> {
    if kind == "GameState"@ {
        match snapshot_of(payload) {
            Some(full) => Ok(ServerMessageView::GameState(full)),
            None => Err(DecodeError::MalformedPayload),
        }
    } else if kind == "PlayerJoined"@ {
        match payload {
            Some(value) => match player_of(value) {
                Some(player) => Ok(ServerMessageView::PlayerJoined(player)),
                None => Err(DecodeError::MalformedPayload),
            },
            None => Err(DecodeError::MalformedPayload),
        }
    } else if kind == "ShowRoundWinner"@ {
        match text_of(payload) {
            Some(id) => Ok(ServerMessageView::ShowRoundWinner(id)),
            None => Err(DecodeError::MalformedPayload),
        }
    } else if kind == "IncrementSubmissionCount"@ {
        Ok(ServerMessageView::IncrementSubmissionCount)
    } else if kind == "UpdateRemainingTime"@ {
        match optional_seconds_of(payload) {
            Some(remaining) => Ok(ServerMessageView::UpdateRemainingTime(remaining)),
            None => Err(DecodeError::MalformedPayload),
        }
    } else {
        Err(DecodeError::UnknownDiscriminant)
    }
}

/// The message that a JSON value stands for, or the reason why it stands for
/// none.
pub open spec fn server_message_of(value: Json) -> Result<ServerMessageView, DecodeError> {
    match text_of(member_of(value, "type"@)) {
        Some(kind) => message_of(kind, member_of(value, "payload"@)),
        None => Err(DecodeError::NoDiscriminant),
    }
}

/// The message that a frame stands for, or the reason why it stands for none.
pub open spec fn frame_message(frame: Seq<char>) -> Result<ServerMessageView, DecodeError> {
    match json_parsed(frame) {
        Some(value) => server_message_of(value),
        None => Err(DecodeError::Syntax),
    }
}

/// The JSON value behind a reference that may be absent.
pub open spec fn found_json(found: Option<&serde_json::Value>) -> Option<Json> {
    match found {
        Some(value) => Some(json_of(*value)),
        None => None,
    }
}

fn member<'a>(value: &'a serde_json::Value, name: &str) -> (found: Option<&'a serde_json::Value>)
    ensures
        found_json(found) == member_of(json_of(*value), name@),
{
    json_member(value, name)
}

fn read_text(found: Option<&serde_json::Value>) -> (text: Option<String>)
    ensures
        optional_text(text) == text_of(found_json(found)),
{
    match found {
        Some(value) => match value.as_str() {
            Some(chars) => Some(chars.to_owned()),
            None => None,
        },
        None => None,
    }
}

fn read_optional_text(found: Option<&serde_json::Value>) -> (text: Option<Option<String>>)
    ensures
        match optional_text_of(found_json(found)) {
            Some(inner) => text matches Some(read) && optional_text(read) == inner,
            None => text is None,
        },
{
    match found {
        None => Some(None),
        Some(value) => if value.is_null() {
            Some(None)
        } else {
            match value.as_str() {
                Some(chars) => Some(Some(chars.to_owned())),
                None => None,
            }
        },
    }
}

fn read_count(found: Option<&serde_json::Value>) -> (count: Option<u64>)
    ensures
        count == count_of(found_json(found)),
{
    match found {
        Some(value) => value.as_u64(),
        None => None,
    }
}

fn read_small_count(found: Option<&serde_json::Value>) -> (count: Option<u32>)
    ensures
        count == small_count_of(found_json(found)),
{
    match read_count(found) {
        Some(n) => if n <= u32::MAX as u64 {
            Some(n as u32)
        } else {
            None
        },
        None => None,
    }
}

fn read_optional_seconds(found: Option<&serde_json::Value>) -> (seconds: Option<Option<u32>>)
    ensures
        seconds == optional_seconds_of(found_json(found)),
{
    match found {
        None => Some(None),
        Some(value) => if value.is_null() {
            Some(None)
        } else {
            match read_small_count(found) {
                Some(n) => Some(Some(n)),
                None => None,
            }
        },
    }
}

fn read_step(found: Option<&serde_json::Value>) -> (step: Option<GameStep>)
    ensures
        step == step_of(found_json(found)),
{
    match read_text(found) {
        Some(name) => {
            if text_is(name.as_str(), "Setup") {
                Some(GameStep::Setup)
            } else if text_is(name.as_str(), "Submission") {
                Some(GameStep::Submission)
            } else if text_is(name.as_str(), "Judging") {
                Some(GameStep::Judging)
            } else if text_is(name.as_str(), "Results") {
                Some(GameStep::Results)
            } else {
                None
            }
        },
        None => None,
    }
}

fn read_player(value: &serde_json::Value) -> (player: Option<Player>)
    ensures
        match player_of(json_of(*value)) {
            Some(read) => player matches Some(p) && p@ == read,
            None => player is None,
        },
{
    let id = read_text(member(value, "id"));
    let name = read_text(member(value, "name"));
    match (id, name) {
        (Some(id), Some(name)) => Some(Player { id, name }),
        _ => None,
    }
}

fn read_roster(found: Option<&serde_json::Value>) -> (roster: Option<Vec<Player>>)
    ensures
        match roster_of(found_json(found)) {
            Some(read) => roster matches Some(players) && roster_view(players@) == read,
            None => roster is None,
        },
{
    let items = match found {
        Some(value) => match value.as_array() {
            Some(items) => items,
            None => { return None; },
        },
        None => { return None; },
    };
    let ghost elements = items@.map_values(|item: serde_json::Value| json_of(item));
    let mut players: Vec<Player> = Vec::new();
    let mut at: usize = 0;
    while at < items.len()
        invariant
            at <= items.len(),
            found_json(found) == Some(Json::List(elements)),
            elements == items@.map_values(|item: serde_json::Value| json_of(item)),
            players.len() == at,
            forall|i: int| 0 <= i < at ==> (#[trigger] player_of(elements[i])) is Some,
            forall|i: int| 0 <= i < at ==> players[i]@ == player_of(elements[i]).unwrap(),
        decreases items.len() - at,
    {
        assert(elements[at as int] == json_of(items[at as int]));
        match read_player(&items[at]) {
            Some(player) => {
                players.push(player);
            },
            None => {
                return None;
            },
        }
        at += 1;
    }
    Some(players)
}

fn read_config(found: Option<&serde_json::Value>) -> (config: Option<GameConfig>)
    ensures
        config == config_of(found_json(found)),
{
    let range = match found {
        Some(value) => member(value, "lettersPerAcronym"),
        None => { return None; },
    };
    match range {
        Some(range) => {
            let min = read_small_count(member(range, "min"));
            let max = read_small_count(member(range, "max"));
            match (min, max) {
                (Some(min), Some(max)) => Some(
                    GameConfig { letters_per_acronym: LetterRange { min, max } },
                ),
                _ => None,
            }
        },
        None => None,
    }
}

fn read_snapshot(found: Option<&serde_json::Value>) -> (snapshot: Option<ClientGameState>)
    ensures
        match snapshot_of(found_json(found)) {
            Some(read) => snapshot matches Some(state) && state@ == read,
            None => snapshot is None,
        },
{
    let value = match found {
        Some(value) => value,
        None => { return None; },
    };
    let step = read_step(member(value, "step"));
    let players = read_roster(member(value, "players"));
    let round_winner = read_optional_text(member(value, "roundWinner"));
    let timer = read_optional_seconds(member(value, "timer"));
    let submission_count = read_count(member(value, "submissionCount"));
    let config = read_config(member(value, "config"));
    match (step, players, round_winner, timer, submission_count, config) {
        (
            Some(step),
            Some(players),
            Some(round_winner),
            Some(timer),
            Some(submission_count),
            Some(config),
        ) => Some(
            ClientGameState { step, players, round_winner, timer, submission_count, config },
        ),
        _ => None,
    }
}

/// Reads a message of the server from a JSON value.
///
/// The value has to be an object whose member `type` is a string
/// (`NoDiscriminant` otherwise) that names a message of the server
/// (`UnknownDiscriminant` otherwise), and its member `payload` has to have
/// the form that this message asks for (`MalformedPayload` otherwise).
pub fn server_message_from_json(value: &serde_json::Value) -> (message: Result<
    ServerMessage,
    DecodeError,
>)
    ensures
        match server_message_of(json_of(*value)) {
            Ok(read) => message matches Ok(m) && m@ == read,
            Err(reason) => message matches Err(e) && e == reason,
        },
{
    let kind = match read_text(member(value, "type")) {
        Some(kind) => kind,
        None => { return Err(DecodeError::NoDiscriminant); },
    };
    let payload = member(value, "payload");
    if text_is(kind.as_str(), "GameState") {
        match read_snapshot(payload) {
            Some(full) => Ok(ServerMessage::GameState(full)),
            None => Err(DecodeError::MalformedPayload),
        }
    } else if text_is(kind.as_str(), "PlayerJoined") {
        match payload {
            Some(value) => match read_player(value) {
                Some(player) => Ok(ServerMessage::PlayerJoined(player)),
                None => Err(DecodeError::MalformedPayload),
            },
            None => Err(DecodeError::MalformedPayload),
        }
    } else if text_is(kind.as_str(), "ShowRoundWinner") {
        match read_text(payload) {
            Some(id) => Ok(ServerMessage::ShowRoundWinner(id)),
            None => Err(DecodeError::MalformedPayload),
        }
    } else if text_is(kind.as_str(), "IncrementSubmissionCount") {
        Ok(ServerMessage::IncrementSubmissionCount)
    } else if text_is(kind.as_str(), "UpdateRemainingTime") {
        match read_optional_seconds(payload) {
            Some(remaining) => Ok(ServerMessage::UpdateRemainingTime(remaining)),
            None => Err(DecodeError::MalformedPayload),
        }
    } else {
        Err(DecodeError::UnknownDiscriminant)
    }
}

/// Reads a message of the server from a frame.
///
/// A frame that is not JSON gives `Syntax`; for every other frame the
/// outcome is that of [`server_message_from_json`] on the value it holds.
/// No frame makes this function fail in another way than by its result.
pub fn decode(frame: &str) -> (message: Result<ServerMessage, DecodeError>)
    ensures
        match frame_message(frame@) {
            Ok(read) => message matches Ok(m) && m@ == read,
            Err(reason) => message matches Err(e) && e == reason,
        },
{
    match parse_json(frame) {
        Ok(value) => server_message_from_json(&value),
        Err(_) => Err(DecodeError::Syntax),
    }
}

} // verus!
