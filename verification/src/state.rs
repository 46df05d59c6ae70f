//! Game loop state: phases of a game and the events that occur while the
//! server is running.

use crate::db::Timestamp;
use crate::random_str::JoinCode;
use vstd::prelude::*;

verus! {

/// Game phases. Each phase corresponds to a state in the game's state machine
/// model.
#[derive(Debug, Clone, Copy, PartialEq, Eq, Structural)]
pub enum GamePhase {
    /// In lobby, players joining and forming teams
    Lobby,
    /// A question is open and can be answered. (Any previous questions this
    /// section can also be edited.)
    QuestionOpen,
    /// All questions from this section can be reviewed and edited
    SectionReview,
    /// Answers for the current section are locked and cannot be edited
    SectionScore,
    /// Terminal game state. The game is concluded and the winners are being
    /// announced.
    FinalWinners,
}

/// State of a running game.
pub struct GameState {
    pub phase: GamePhase,
}

/// Identifier of a team.
#[derive(Debug, Clone, Copy, PartialEq, Eq, Structural)]
pub struct TeamId(pub usize);

/// Identifier of a player within a game.
#[derive(Debug, Clone, Copy, PartialEq, Eq, Structural)]
pub struct PlayerId(pub usize);

/// Length of the join code for games and teams
pub const JC_LEN: usize = 4;

/// Event that can occur while the server is running
#[allow(inconsistent_fields)]
pub enum GameEvent {
    GameStarted { at: Timestamp, root_seed: u64, game_join_code: JoinCode },
    TeamCreated { id: TeamId, name: String, team_join_code: JoinCode },
    PlayerJoined { id: PlayerId, name: String },
}

} // verus!
