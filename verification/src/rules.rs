//! The rules that the screens of the client go by.

use vstd::prelude::*;

use crate::model::{optional_text, roster_view, ClientGameState, LetterRange, PlayerId};
use crate::reducer::{find_player, lemma_first_place_is_unique, on_roster, place_of};

verus! {

/// The fewest players a game can start with.
pub const MIN_PLAYERS: usize = 3;

/// The fewest letters an acronym can have.
pub const MIN_LETTERS: u32 = 2;

impl LetterRange {
    /// A range that a game can be played with: at least `MIN_LETTERS`
    /// letters, and the longest acronym no shorter than the shortest.
    pub open spec fn valid(self) -> bool {
        MIN_LETTERS <= self.min <= self.max
    }

    /// Whether a game can be played with this range.
    pub fn is_valid(&self) -> (valid: bool)
        ensures
            valid == self.valid(),
    {
        MIN_LETTERS <= self.min && self.min <= self.max
    }
}

/// The name under which the roster knows the player with the identity `id`:
/// the name at the first place that holds the identity. Where there is no
/// identity, or none that is on the roster, there is no name.
pub fn player_name(state: &ClientGameState, id: &Option<PlayerId>) -> (name: Option<String>)
    ensures
        match *id {
            Some(id) => if on_roster(state@.players, id@) {
                name matches Some(found) && found@ == state@.players[place_of(
                    state@.players,
                    id@,
                )].name
            } else {
                name is None
            },
            None => name is None,
        },
{
    match id {
        Some(id) => match find_player(&state.players, id) {
            Some(at) => {
                proof {
                    lemma_first_place_is_unique(roster_view(state.players@), id@, at as int);
                }
                Some(state.players[at].name.clone())
            },
            None => None,
        },
        None => None,
    }
}

/// Whether the player with the identity `own_id` hosts the game. The host is
/// the player at the head of the roster.
pub fn is_host(state: &ClientGameState, own_id: &Option<PlayerId>) -> (host: bool)
    ensures
        host == (state@.players.len() > 0 && optional_text(*own_id) == Some(
            state@.players[0].id,
        )),
{
    match own_id {
        Some(id) => state.players.len() > 0 && state.players[0].id == *id,
        None => false,
    }
}

/// Whether enough players have joined for the game to start.
pub fn enough_players(state: &ClientGameState) -> (enough: bool)
    ensures
        enough == (state@.players.len() >= MIN_PLAYERS),
{
    state.players.len() >= MIN_PLAYERS
}

/// Whether the host may start the game: enough players have joined, and the
/// letters per acronym are a range that a game can be played with.
pub fn can_start(state: &ClientGameState, letters: &LetterRange) -> (ready: bool)
    ensures
        ready == (state@.players.len() >= MIN_PLAYERS && letters.valid()),
{
    enough_players(state) && letters.is_valid()
}

/// Whether the player with the identity `own_id` may remove the player
/// `target` from the roster: everybody but oneself.
pub fn may_kick(own_id: &Option<PlayerId>, target: &PlayerId) -> (allowed: bool)
    ensures
        allowed == (optional_text(*own_id) != Some(target@)),
{
    match own_id {
        Some(id) => !(*id == *target),
        None => true,
    }
}

/// The seconds that a countdown shows one second later: one less, and zero
/// stays zero.
pub fn tick(seconds: u32) -> (left: u32)
    ensures
        seconds > 0 ==> left == seconds - 1,
        seconds == 0 ==> left == 0,
{
    if seconds > 0 {
        seconds - 1
    } else {
        seconds
    }
}

} // verus!
