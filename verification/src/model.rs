//! The data that client and server exchange, and the snapshot the client keeps.
//!
//! Every type that owns text or a list has a view: the same value with
//! `Seq<char>` for each string and `Seq` for each list. Contracts are stated
//! over the views.

use vstd::prelude::*;

verus! {

/// The identity of a player: an opaque string that the browser keeps.
pub type PlayerId = String;

/// Seconds for which the winner of a round stays on the screen.
pub const SHOW_ROUND_WINNER_SECS: u32 = 5;

/// The phase of the game. Only the server moves it.
#[derive(Clone, Copy, Debug, PartialEq, Eq, Structural)]
pub enum GameStep {
    Setup,
    Submission,
    Judging,
    Results,
}

/// The shortest and the longest acronym a round may ask for.
#[derive(Clone, Copy, Debug, PartialEq, Eq, Structural)]
pub struct LetterRange {
    pub min: u32,
    pub max: u32,
}

/// What the host configures before the game starts.
#[derive(Clone, Copy, Debug, PartialEq, Eq, Structural)]
pub struct GameConfig {
    pub letters_per_acronym: LetterRange,
}

impl Default for GameConfig {
    fn default() -> (config: Self)
        ensures
            config == GameConfig::blank(),
    {
        GameConfig { letters_per_acronym: LetterRange { min: 0, max: 0 } }
    }
}

impl GameConfig {
    /// The configuration of a client that has heard nothing from the server.
    pub open spec fn blank() -> GameConfig {
        GameConfig { letters_per_acronym: LetterRange { min: 0, max: 0 } }
    }
}

/// A participant, as the roster shows it.
#[derive(Clone, Debug, PartialEq, Eq)]
pub struct Player {
    pub id: PlayerId,
    pub name: String,
}

/// The mathematical value of a [`Player`].
pub struct PlayerView {
    pub id: Seq<char>,
    pub name: Seq<char>,
}

impl View for Player {
    type V = PlayerView;

    open spec fn view(&self) -> PlayerView {
        PlayerView { id: self.id@, name: self.name@ }
    }
}

/// The views of the players of a roster, in the roster's order.
pub open spec fn roster_view(players: Seq<Player>) -> Seq<PlayerView> {
    players.map_values(|p: Player| p@)
}

/// The view of a string that may be absent.
pub open spec fn optional_text(text: Option<String>) -> Option<Seq<char>> {
    match text {
        Some(t) => Some(t@),
        None => None,
    }
}

/// The snapshot of the game that the client keeps in step with the server.
#[derive(Clone, Debug, PartialEq, Eq)]
pub struct ClientGameState {
    pub step: GameStep,
    pub players: Vec<Player>,
    pub round_winner: Option<PlayerId>,
    pub timer: Option<u32>,
    pub submission_count: u64,
    pub config: GameConfig,
}

/// The mathematical value of a [`ClientGameState`].
pub struct ClientGameStateView {
    pub step: GameStep,
    pub players: Seq<PlayerView>,
    pub round_winner: Option<Seq<char>>,
    pub timer: Option<u32>,
    pub submission_count: u64,
    pub config: GameConfig,
}

impl ClientGameStateView {
    /// The snapshot of a client that has heard nothing from the server:
    /// the setup phase, nobody on the roster, nothing counted, no timer.
    pub open spec fn initial() -> ClientGameStateView {
        ClientGameStateView {
            step: GameStep::Setup,
            players: Seq::empty(),
            round_winner: None,
            timer: None,
            submission_count: 0,
            config: GameConfig::blank(),
        }
    }

    /// No two players of the roster share an identity.
    pub open spec fn well_formed(self) -> bool {
        forall|i: int, j: int|
            0 <= i < j < self.players.len() ==> self.players[i].id != self.players[j].id
    }
}

impl View for ClientGameState {
    type V = ClientGameStateView;

    open spec fn view(&self) -> ClientGameStateView {
        ClientGameStateView {
            step: self.step,
            players: roster_view(self.players@),
            round_winner: optional_text(self.round_winner),
            timer: self.timer,
            submission_count: self.submission_count,
            config: self.config,
        }
    }
}

impl Default for ClientGameState {
    fn default() -> (state: Self)
        ensures
            state@ == ClientGameStateView::initial(),
            state@.well_formed(),
    {
        let state = ClientGameState {
            step: GameStep::Setup,
            players: Vec::new(),
            round_winner: None,
            timer: None,
            submission_count: 0,
            config: GameConfig::default(),
        };
        assert(roster_view(state.players@) =~= Seq::empty());
        state
    }
}

/// What the server tells the client.
#[derive(Clone, Debug, PartialEq, Eq)]
pub enum ServerMessage {
    /// The whole snapshot, as the server has it.
    GameState(ClientGameState),
    /// A player joined, or a player on the roster took a new name.
    PlayerJoined(Player),
    /// The round is over and this player won it.
    ShowRoundWinner(PlayerId),
    /// One more submission came in.
    IncrementSubmissionCount,
    /// The server's clock: the seconds that remain, or no timer at all.
    UpdateRemainingTime(Option<u32>),
}

/// The mathematical value of a [`ServerMessage`].
pub enum ServerMessageView {
    GameState(ClientGameStateView),
    PlayerJoined(PlayerView),
    ShowRoundWinner(Seq<char>),
    IncrementSubmissionCount,
    UpdateRemainingTime(Option<u32>),
}

impl View for ServerMessage {
    type V = ServerMessageView;

    open spec fn view(&self) -> ServerMessageView {
        match self {
            ServerMessage::GameState(g) => ServerMessageView::GameState(g@),
            ServerMessage::PlayerJoined(p) => ServerMessageView::PlayerJoined(p@),
            ServerMessage::ShowRoundWinner(id) => ServerMessageView::ShowRoundWinner(id@),
            ServerMessage::IncrementSubmissionCount => ServerMessageView::IncrementSubmissionCount,
            ServerMessage::UpdateRemainingTime(t) => ServerMessageView::UpdateRemainingTime(*t),
        }
    }
}

/// What the client tells the server.
#[derive(Clone, Debug, PartialEq, Eq)]
pub enum ClientMessage {
    /// Join the game, or take a new name.
    JoinGame(Player),
    /// Remove a player from the roster.
    KickPlayer(PlayerId),
    /// Leave the setup phase with this configuration.
    StartGame(GameConfig),
    /// An action of the submission or judging phase. The synchronisation
    /// layer passes it on unread: the name of the action and its text.
    Gameplay { action: String, text: String },
}

/// The mathematical value of a [`ClientMessage`].
pub enum ClientMessageView {
    JoinGame(PlayerView),
    KickPlayer(Seq<char>),
    StartGame(GameConfig),
    Gameplay { action: Seq<char>, text: Seq<char> },
}

impl View for ClientMessage {
    type V = ClientMessageView;

    open spec fn view(&self) -> ClientMessageView {
        match self {
            ClientMessage::JoinGame(p) => ClientMessageView::JoinGame(p@),
            ClientMessage::KickPlayer(id) => ClientMessageView::KickPlayer(id@),
            ClientMessage::StartGame(c) => ClientMessageView::StartGame(*c),
            ClientMessage::Gameplay { action, text } => ClientMessageView::Gameplay {
                action: action@,
                text: text@,
            },
        }
    }
}

} // verus!
