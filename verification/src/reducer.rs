//! The state reducer: how one message of the server changes the snapshot.

use vstd::prelude::*;

use crate::model::{
    ClientGameState, ClientGameStateView, Player, PlayerView, ServerMessage, ServerMessageView,
    roster_view, SHOW_ROUND_WINNER_SECS,
};

verus! {

/// `at` is the first place of the roster whose player has the identity `id`.
pub open spec fn is_first_place(roster: Seq<PlayerView>, id: Seq<char>, at: int) -> bool {
    &&& 0 <= at < roster.len()
    &&& roster[at].id == id
    &&& forall|j: int| 0 <= j < at ==> roster[j].id != id
}

/// Some player of the roster has the identity `id`.
pub open spec fn on_roster(roster: Seq<PlayerView>, id: Seq<char>) -> bool {
    exists|at: int| is_first_place(roster, id, at)
}

/// The first place of the roster whose player has the identity `id`.
/// It means something only if `on_roster(roster, id)`.
pub open spec fn place_of(roster: Seq<PlayerView>, id: Seq<char>) -> int {
    choose|at: int| is_first_place(roster, id, at)
}

/// The roster after `player` joined: a player of that identity keeps the
/// place and takes the new name; a new identity goes to the end.
pub open spec fn upsert(roster: Seq<PlayerView>, player: PlayerView) -> Seq<PlayerView> {
    if on_roster(roster, player.id) {
        let at = place_of(roster, player.id);
        roster.update(at, PlayerView { id: roster[at].id, name: player.name })
    } else {
        roster.push(player)
    }
}

/// One more than `count`, or `count` itself where no larger number exists.
pub open spec fn counted_up(count: u64) -> u64 {
    if count < u64::MAX {
        (count + 1) as u64
    } else {
        count
    }
}

/// The snapshot after the client has taken in one message.
pub open spec fn applied(
    state: ClientGameStateView,
    message: ServerMessageView,
) -> ClientGameStateView {
    match message {
        ServerMessageView::GameState(full) => full,
        ServerMessageView::PlayerJoined(player) => ClientGameStateView {
            players: upsert(state.players, player),
            ..state
        },
        ServerMessageView::ShowRoundWinner(id) => ClientGameStateView {
            round_winner: Some(id),
            timer: Some(SHOW_ROUND_WINNER_SECS),
            ..state
        },
        ServerMessageView::IncrementSubmissionCount => ClientGameStateView {
            submission_count: counted_up(state.submission_count),
            ..state
        },
        ServerMessageView::UpdateRemainingTime(remaining) => ClientGameStateView {
            timer: remaining,
            ..state
        },
    }
}

/// The snapshot after the client has taken in a run of messages, oldest first.
pub open spec fn replayed(
    start: ClientGameStateView,
    messages: Seq<ServerMessageView>,
) -> ClientGameStateView
    decreases messages.len(),
{
    if messages.len() == 0 {
        start
    } else {
        applied(replayed(start, messages.drop_last()), messages.last())
    }
}

/// A message is well formed if the snapshot it carries, where it carries
/// one, is.
pub open spec fn message_well_formed(message: ServerMessageView) -> bool {
    message matches ServerMessageView::GameState(full) ==> full.well_formed()
}

/// Where on the roster the player with the identity `id` stands.
pub fn find_player(players: &Vec<Player>, id: &String) -> (found: Option<usize>)
    ensures
        match found {
            Some(at) => is_first_place(roster_view(players@), id@, at as int),
            None => !on_roster(roster_view(players@), id@),
        },
{
    let mut at: usize = 0;
    while at < players.len()
        invariant
            at <= players.len(),
            forall|j: int| 0 <= j < at ==> roster_view(players@)[j].id != id@,
        decreases players.len() - at,
    {
        if players[at].id == *id {
            return Some(at);
        }
        at += 1;
    }
    None
}

/// Folds one message of the server into the snapshot.
///
/// A full game state replaces the snapshot. A joining player takes the place
/// of the player with the same identity, or the end of the roster. A round
/// winner is recorded together with the time for which it is shown. The
/// submission count goes up by one and stays where it is once it has reached
/// the largest number it can hold. The remaining time is taken as sent.
pub fn apply_server_message(state: &mut ClientGameState, message: ServerMessage)
    ensures
        final(state)@ == applied(old(state)@, message@),
        old(state)@.well_formed() && message_well_formed(message@)
            ==> final(state)@.well_formed(),
{
    proof {
        if state@.well_formed() && message_well_formed(message@) {
            lemma_applied_keeps_well_formed(state@, message@);
        }
    }
    match message {
        ServerMessage::GameState(full) => {
            *state = full;
        },
        ServerMessage::PlayerJoined(player) => {
            let ghost before = roster_view(state.players@);
            match find_player(&state.players, &player.id) {
                Some(at) => {
                    proof {
                        lemma_first_place_is_unique(before, player.id@, at as int);
                    }
                    let id = state.players[at].id.clone();
                    state.players.set(at, Player { id, name: player.name });
                },
                None => {
                    state.players.push(player);
                },
            }
            assert(roster_view(state.players@) =~= upsert(before, player@));
        },
        ServerMessage::ShowRoundWinner(id) => {
            state.round_winner = Some(id);
            state.timer = Some(SHOW_ROUND_WINNER_SECS);
        },
        ServerMessage::IncrementSubmissionCount => {
            if state.submission_count < u64::MAX {
                state.submission_count += 1;
            }
        },
        ServerMessage::UpdateRemainingTime(remaining) => {
            state.timer = remaining;
        },
    }
}

/// A roster has at most one first place for an identity.
pub proof fn lemma_first_place_is_unique(roster: Seq<PlayerView>, id: Seq<char>, at: int)
    requires
        is_first_place(roster, id, at),
    ensures
        on_roster(roster, id),
        place_of(roster, id) == at,
{
    assert(is_first_place(roster, id, place_of(roster, id)));
}

/// A roster that holds an identity at some place holds it at a first place.
pub proof fn lemma_holder_gives_first_place(roster: Seq<PlayerView>, id: Seq<char>, at: int)
    requires
        0 <= at < roster.len(),
        roster[at].id == id,
    ensures
        on_roster(roster, id),
        place_of(roster, id) <= at,
    decreases at,
{
    if forall|j: int| 0 <= j < at ==> roster[j].id != id {
        lemma_first_place_is_unique(roster, id, at);
    } else {
        let earlier = choose|j: int| 0 <= j < at && roster[j].id == id;
        lemma_holder_gives_first_place(roster, id, earlier);
    }
}

/// Joining changes the roster at one place at most: a player who is on the
/// roster keeps the place and only takes the new name, so the roster is as
/// long as before and holds the same identities in the same order; a player
/// who is not goes to the end.
pub proof fn lemma_upsert_in_place(roster: Seq<PlayerView>, player: PlayerView)
    ensures
        ({
            let after = upsert(roster, player);
            let at = place_of(roster, player.id);
            &&& on_roster(roster, player.id) ==> ({
                &&& after.len() == roster.len()
                &&& is_first_place(roster, player.id, at)
                &&& after[at] == player
                &&& forall|i: int| 0 <= i < roster.len() ==> (#[trigger] after[i]).id == roster[i].id
                &&& forall|i: int| 0 <= i < roster.len() && i != at ==> #[trigger] after[i] == roster[i]
            })
            &&& !on_roster(roster, player.id) ==> after == roster.push(player)
        }),
{
}

/// Joining twice with the same identity and the same name gives the roster
/// that joining once gives.
pub proof fn lemma_upsert_idempotent(roster: Seq<PlayerView>, player: PlayerView)
    ensures
        upsert(upsert(roster, player), player) == upsert(roster, player),
{
    let once = upsert(roster, player);
    if on_roster(roster, player.id) {
        let at = place_of(roster, player.id);
        lemma_first_place_is_unique(once, player.id, at);
    } else {
        let at = roster.len() as int;
        assert forall|j: int| 0 <= j < at implies once[j].id != player.id by {
            if roster[j].id == player.id {
                lemma_holder_gives_first_place(roster, player.id, j);
            }
        }
        lemma_first_place_is_unique(once, player.id, at);
    }
}

/// Taking in the same `PlayerJoined` message twice leaves the snapshot that
/// taking it in once leaves.
pub proof fn lemma_join_is_idempotent(state: ClientGameStateView, player: PlayerView)
    ensures
        applied(
            applied(state, ServerMessageView::PlayerJoined(player)),
            ServerMessageView::PlayerJoined(player),
        ) == applied(state, ServerMessageView::PlayerJoined(player)),
{
    lemma_upsert_idempotent(state.players, player);
}

/// A roster without a repeated identity has none after a player joined.
pub proof fn lemma_upsert_keeps_identities_apart(roster: Seq<PlayerView>, player: PlayerView)
    requires
        forall|i: int, j: int| 0 <= i < j < roster.len() ==> roster[i].id != roster[j].id,
    ensures
        ({
            let after = upsert(roster, player);
            forall|i: int, j: int| 0 <= i < j < after.len() ==> after[i].id != after[j].id
        }),
{
    let after = upsert(roster, player);
    lemma_upsert_in_place(roster, player);
    assert forall|i: int, j: int| 0 <= i < j < after.len() implies after[i].id != after[j].id by {
        if !on_roster(roster, player.id) && j == roster.len() && roster[i].id == player.id {
            lemma_holder_gives_first_place(roster, player.id, i);
        }
    }
}

/// A well-formed snapshot stays well formed under every well-formed message.
pub proof fn lemma_applied_keeps_well_formed(state: ClientGameStateView, message: ServerMessageView)
    requires
        state.well_formed(),
        message_well_formed(message),
    ensures
        applied(state, message).well_formed(),
{
    if let ServerMessageView::PlayerJoined(player) = message {
        lemma_upsert_keeps_identities_apart(state.players, player);
    }
}

/// A full game state overrides everything that came before it: whatever the
/// client started from and whatever it has taken in, after `GameState(full)`
/// the snapshot is `full`.
pub proof fn lemma_full_state_overrides_history(
    start: ClientGameStateView,
    history: Seq<ServerMessageView>,
    full: ClientGameStateView,
)
    ensures
        replayed(start, history.push(ServerMessageView::GameState(full))) == full,
{
}

/// The snapshot is the fold of the messages that came after the last full
/// game state, started from that state.
pub proof fn lemma_replay_restarts_at_full_state(
    start: ClientGameStateView,
    before: Seq<ServerMessageView>,
    full: ClientGameStateView,
    after: Seq<ServerMessageView>,
)
    ensures
        replayed(start, before.push(ServerMessageView::GameState(full)) + after) == replayed(
            full,
            after,
        ),
    decreases after.len(),
{
    let head = before.push(ServerMessageView::GameState(full));
    if after.len() == 0 {
        lemma_full_state_overrides_history(start, before, full);
    } else {
        assert((head + after).drop_last() =~= head + after.drop_last());
        lemma_replay_restarts_at_full_state(start, before, full, after.drop_last());
    }
}

} // verus!
