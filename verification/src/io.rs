use vstd::prelude::*;
use gstd::ActorId;

verus! {

/// Most guesses a game allows.
pub const MAX_TRIES: u32 = 6;

/// Time units after a game's start at which its deferred check comes due.
pub const MAX_BLOCKS: u32 = 100;

/// Letters in every word.
pub const WORD_LENGTH: usize = 5;

/// Names the message types of the session program.
#[derive(Debug, Clone, Copy, PartialEq, Eq, Structural)]
pub struct SessionMetadata;

/// How a game ended.
#[derive(Debug, Clone, Copy, PartialEq, Eq, Structural)]
pub enum GameOver {
    Win,
    Lose,
}

/// Where a user's game stands.
#[derive(Debug, Clone, Copy, PartialEq, Eq, Structural)]
pub enum UserStatus {
    /// No game was started for the user.
    GameNotStarted,
    /// A game is in progress.
    GameStarted,
    /// The game has ended.
    GameOver(GameOver),
}

/// A user's request.
#[derive(Debug, Clone, PartialEq, Eq)]
pub enum UserAction {
    StartGame,
    GuessWord { word: String },
}

/// The reply to a user.
#[derive(Debug, Clone, PartialEq, Eq)]
pub enum UserEvent {
    Result {
        user_status: UserStatus,
        correct_position: Option<String>,
        contained_in_word: Option<String>,
        max_tries: u32,
        tries: Option<u32>,
        time_out: Option<bool>,
    },
}

/// What a reply says.
pub struct UserEventView {
    pub user_status: UserStatus,
    pub correct_position: Option<Seq<char>>,
    pub contained_in_word: Option<Seq<char>>,
    pub max_tries: u32,
    pub tries: Option<u32>,
    pub time_out: Option<bool>,
}

/// The characters of an optional text.
pub open spec fn text_view(t: Option<String>) -> Option<Seq<char>> {
    match t {
        Some(s) => Some(s@),
        None => None,
    }
}

impl View for UserEvent {
    type V = UserEventView;

    open spec fn view(&self) -> UserEventView {
        match *self {
            UserEvent::Result {
                user_status,
                correct_position,
                contained_in_word,
                max_tries,
                tries,
                time_out,
            } => UserEventView {
                user_status,
                correct_position: text_view(correct_position),
                contained_in_word: text_view(contained_in_word),
                max_tries,
                tries,
                time_out,
            },
        }
    }
}

/// The program's message to itself: look at this user's game now.
#[derive(Debug, Clone)]
pub struct CheckGameStatus {
    pub user: ActorId,
}

/// A request to the word oracle.
#[derive(Debug, Clone)]
pub enum Action {
    StartGame { user: ActorId },
    CheckWord { user: ActorId, word: String },
}

/// The word oracle's reply.
#[derive(Debug, Clone)]
pub enum Event {
    GameStarted { user: ActorId },
    WordChecked { user: ActorId, correct_position: Vec<u8>, contained_in_word: Vec<u8> },
}

/// A snapshot of the whole program for a state query.
#[derive(Debug, Clone)]
pub struct ProgramStatus {
    pub user_status_list: Option<Vec<(ActorId, UserStatus)>>,
    pub word_length: Option<u32>,
    pub max_tries: Option<u32>,
    pub max_blocks: Option<u32>,
}

/// Why a message was given up.
#[derive(Debug, Clone, Copy, PartialEq, Eq, Structural)]
pub enum SessionError {
    /// The program was used before it was initialized.
    UninitializedState,
    /// The oracle's reply does not answer the request that was made.
    ProtocolViolation,
    /// The guess has the wrong length or holds something other than
    /// lowercase letters.
    InvalidGuess,
}

} // verus!
