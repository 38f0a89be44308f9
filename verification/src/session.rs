use vstd::prelude::*;
use vstd::string::*;
use gstd::ActorId;
use crate::actor::same_actor;
use crate::io::{
    Action, CheckGameStatus, Event, GameOver, ProgramStatus, SessionError, UserAction, UserEvent,
    UserStatus, MAX_BLOCKS, MAX_TRIES, WORD_LENGTH,
};
use crate::model::{
    after_guess, after_start, after_timeout, consistent, guess_replay, lemma_reconcile,
    not_started_event, record_in_order, recorded, reconciled, records_after_reply, reply_for,
    start_replay, status_of, valid_guess, Sessions,
};
use crate::table::{SessionTable, UserSession};
use crate::text::{copy_bytes, vec_u8_to_comma_separated_string};

verus! {

/// What to do with a start request.
#[derive(Debug, Clone)]
pub enum StartStep {
    /// Send this reply; nothing else happens.
    Replay(UserEvent),
    /// Send this request to the oracle and bring its reply to `finish_start`.
    AskOracle(Action),
}

/// What to do with a guess.
#[derive(Debug, Clone)]
pub enum GuessStep {
    /// Send this reply; nothing else happens.
    Reply(UserEvent),
    /// Send this request to the oracle and bring its reply to `finish_guess`.
    AskOracle(Action),
}

/// What to do with a user's request.
#[derive(Debug, Clone)]
pub enum Step {
    Start(StartStep),
    Guess(GuessStep),
}

/// What follows an acknowledged start.
#[derive(Debug, Clone)]
pub struct Started {
    /// The reply to the user.
    pub reply: UserEvent,
    /// The message that the program sends to itself.
    pub check: CheckGameStatus,
    /// Time units to wait before that message is delivered.
    pub delay: u32,
}

/// The session program's whole state: the oracle it talks to, known once
/// the program is initialized, and every user's record.
///
/// A request that needs the oracle is handled in two calls, one before the
/// oracle is asked and one with its reply, and other messages may be handled
/// in between. What the first call saw is therefore never trusted by the
/// second: every call that writes takes `&mut self`, reads the record again
/// and decides on what it finds, with nothing able to come between its read
/// and its write.
pub struct GameSession {
    wordle_id: Option<ActorId>,
    sessions: SessionTable,
}

/// The failure of every operation on a program that is not initialized.
pub open spec fn uninitialized<T>(r: Result<T, SessionError>) -> bool {
    r is Err && r->Err_0 == SessionError::UninitializedState
}

/// The step that a start request of `user` calls for.
pub open spec fn start_step_fits(s: Sessions, user: ActorId, step: StartStep) -> bool {
    match step {
        StartStep::Replay(event) => start_replay(s, user) == Some(event@),
        StartStep::AskOracle(action) => {
            &&& start_replay(s, user) is None
            &&& action == (Action::StartGame { user })
        },
    }
}

/// The step that an acceptable guess `word` of `user` calls for.
pub open spec fn guess_step_fits(
    s: Sessions,
    user: ActorId,
    word: Seq<char>,
    step: GuessStep,
) -> bool {
    match step {
        GuessStep::Reply(event) => guess_replay(s, user) == Some(event@),
        GuessStep::AskOracle(action) => {
            &&& guess_replay(s, user) is None
            &&& action is CheckWord
            &&& action->CheckWord_user == user
            &&& action->CheckWord_word@ == word
        },
    }
}

/// The characters of an optional text, copied.
fn copy_text(t: &Option<String>) -> (r: Option<String>)
    ensures
        crate::io::text_view(r) == crate::io::text_view(*t),
{
    match t {
        Some(s) => Some(s.clone()),
        None => None,
    }
}

/// A copy of a reply.
pub fn copy_event(event: &UserEvent) -> (r: UserEvent)
    ensures
        r@ == event@,
{
    match event {
        UserEvent::Result {
            user_status,
            correct_position,
            contained_in_word,
            max_tries,
            tries,
            time_out,
        } => UserEvent::Result {
            user_status: *user_status,
            correct_position: copy_text(correct_position),
            contained_in_word: copy_text(contained_in_word),
            max_tries: *max_tries,
            tries: *tries,
            time_out: *time_out,
        },
    }
}

/// The reply to a user who has no game.
pub fn not_started_reply() -> (r: UserEvent)
    ensures
        r@ == not_started_event(),
{
    UserEvent::Result {
        user_status: UserStatus::GameNotStarted,
        correct_position: None,
        contained_in_word: None,
        max_tries: MAX_TRIES,
        tries: None,
        time_out: None,
    }
}

/// Accepts a guess of exactly the word's length made of lowercase letters
/// `a` to `z`, and rejects every other text.
pub fn check(guess_word: &str) -> (r: Result<(), SessionError>)
    ensures
        r == (if valid_guess(guess_word@) {
            Ok::<(), SessionError>(())
        } else {
            Err::<(), SessionError>(SessionError::InvalidGuess)
        }),
{
    if guess_word.unicode_len() != WORD_LENGTH {
        return Err(SessionError::InvalidGuess);
    }
    let mut i: usize = 0;
    while i < WORD_LENGTH
        invariant
            guess_word@.len() == WORD_LENGTH,
            i <= WORD_LENGTH,
            forall|j: int| 0 <= j < i ==> 'a' <= #[trigger] guess_word@[j] <= 'z',
        decreases WORD_LENGTH - i,
    {
        let c = guess_word.get_char(i);
        if c < 'a' || c > 'z' {
            return Err(SessionError::InvalidGuess);
        }
        i += 1;
    }
    Ok(())
}

/// Writes the oracle's answer to a guess into a record: the two position
/// lists replace the stored ones, and the tries go up by one if the game is
/// still in progress.
pub fn update_position_and_contained_map(
    session: &UserSession,
    correct_position: &Vec<u8>,
    contained_in_word: &Vec<u8>,
) -> (r: UserSession)
    requires
        session.status == UserStatus::GameStarted ==> session.tries < u32::MAX,
    ensures
        r@ == recorded(session@, correct_position@, contained_in_word@),
{
    let tries = if session.status == UserStatus::GameStarted {
        session.tries + 1
    } else {
        session.tries
    };
    UserSession {
        status: session.status,
        tries,
        correct_position: copy_bytes(correct_position),
        contained_in_word: copy_bytes(contained_in_word),
        last_event: copy_event(&session.last_event),
    }
}

/// Judges the latest answer written into a record, and stores the reply in
/// the record. A game still in progress gets the status that the rule of
/// the game gives: won with every position right, else lost with the last
/// try used, else still in progress. A game that has ended keeps its status,
/// and the reply is marked as overtaken by the time limit.
pub fn judge_record(session: &UserSession) -> (r: UserSession)
    ensures
        r@ == reconciled(session@),
{
    let in_progress = session.status == UserStatus::GameStarted;
    let status = if !in_progress {
        session.status
    } else if session.correct_position.len() == WORD_LENGTH {
        UserStatus::GameOver(GameOver::Win)
    } else if session.tries >= MAX_TRIES {
        UserStatus::GameOver(GameOver::Lose)
    } else {
        UserStatus::GameStarted
    };
    let last_event = UserEvent::Result {
        user_status: status,
        correct_position: Some(vec_u8_to_comma_separated_string(&session.correct_position)),
        contained_in_word: Some(vec_u8_to_comma_separated_string(&session.contained_in_word)),
        max_tries: MAX_TRIES,
        tries: Some(session.tries),
        time_out: Some(!in_progress),
    };
    UserSession {
        status,
        tries: session.tries,
        correct_position: copy_bytes(&session.correct_position),
        contained_in_word: copy_bytes(&session.contained_in_word),
        last_event,
    }
}

/// Storing a record that is in order keeps every record in order.
proof fn lemma_put_keeps_consistent(
    s: Sessions,
    user: ActorId,
    session: crate::table::SessionView,
)
    requires
        consistent(s),
        record_in_order(session),
    ensures
        consistent(s.insert(user, session)),
{
    assert forall|u: ActorId| s.insert(user, session).dom().contains(u) implies record_in_order(
        #[trigger] s.insert(user, session)[u],
    ) by {
        if u != user {
            assert(record_in_order(s[u]));
        }
    }
}

impl View for GameSession {
    type V = Sessions;

    closed spec fn view(&self) -> Sessions {
        self.sessions@
    }
}

impl GameSession {
    /// Every record is in order, and a program that is not initialized holds
    /// no record, at all times.
    #[verifier::type_invariant]
    spec fn records_in_order(&self) -> bool {
        &&& consistent(self.sessions@)
        &&& self.wordle_id is None ==> self.sessions@.dom() == Set::<ActorId>::empty()
    }

    /// The oracle that this program talks to, once it is initialized.
    pub closed spec fn oracle(&self) -> Option<ActorId> {
        self.wordle_id
    }

    /// Whether the program is initialized.
    pub open spec fn initialized(&self) -> bool {
        self.oracle() is Some
    }

    /// What holds of the program in every state: each record is in order,
    /// and a program that is not initialized holds no record.
    pub open spec fn in_order(&self) -> bool {
        &&& consistent(self@)
        &&& !self.initialized() ==> self@.dom() == Set::<ActorId>::empty()
    }

    /// A program that is not initialized yet.
    pub fn new() -> (r: GameSession)
        ensures
            !r.initialized(),
            r@ == Map::<ActorId, crate::table::SessionView>::empty(),
            r.in_order(),
    {
        let sessions = SessionTable::new();
        assert(sessions@ =~= Map::<ActorId, crate::table::SessionView>::empty());
        assert(sessions@.dom() =~= Set::<ActorId>::empty());
        GameSession { wordle_id: None, sessions }
    }

    /// Initializes the program: from now on it talks to the oracle
    /// `wordle_id`, and no user has a record.
    pub fn init(&mut self, wordle_id: ActorId)
        ensures
            final(self).oracle() == Some(wordle_id),
            final(self)@ == Map::<ActorId, crate::table::SessionView>::empty(),
            final(self).in_order(),
    {
        let sessions = SessionTable::new();
        assert(sessions@ =~= Map::<ActorId, crate::table::SessionView>::empty());
        *self = GameSession { wordle_id: Some(wordle_id), sessions };
    }

    /// The oracle that this program talks to, once it is initialized.
    pub fn wordle_id(&self) -> (r: Option<ActorId>)
        ensures
            r == self.oracle(),
    {
        self.wordle_id
    }

    /// Where `user` stands.
    pub fn status(&self, user: &ActorId) -> (r: UserStatus)
        ensures
            r == status_of(self@, *user),
            !self.initialized() ==> r == UserStatus::GameNotStarted,
            self.in_order(),
    {
        proof {
            use_type_invariant(self);
        }
        match self.sessions.find(user) {
            Some(session) => session.status,
            None => UserStatus::GameNotStarted,
        }
    }

    /// The reply stored for `user`, if the user has a record.
    pub fn last_event(&self, user: &ActorId) -> (r: Option<UserEvent>)
        ensures
            match r {
                Some(event) => self@.dom().contains(*user) && event@ == self@[*user].last_event,
                None => !self@.dom().contains(*user),
            },
            !self.initialized() ==> r is None,
            self.in_order(),
    {
        proof {
            use_type_invariant(self);
        }
        match self.sessions.find(user) {
            Some(session) => Some(copy_event(&session.last_event)),
            None => None,
        }
    }

    /// Guesses counted so far for `user`, if the user has a record: never
    /// more than the maximum.
    pub fn tries(&self, user: &ActorId) -> (r: Option<u32>)
        ensures
            r == (if self@.dom().contains(*user) {
                Some(self@[*user].tries)
            } else {
                None
            }),
            r is Some ==> r->Some_0 <= MAX_TRIES,
            !self.initialized() ==> r is None,
            self.in_order(),
    {
        proof {
            use_type_invariant(self);
        }
        match self.sessions.find(user) {
            Some(session) => Some(session.tries),
            None => None,
        }
    }

    /// Takes a user's request and hands it to the handler of its kind.
    /// Nothing is written.
    pub fn handle(&self, user: &ActorId, action: &UserAction) -> (r: Result<Step, SessionError>)
        ensures
            !self.initialized() ==> uninitialized(r),
            self.initialized() ==> match *action {
                UserAction::StartGame => {
                    &&& r is Ok
                    &&& r->Ok_0 is Start
                    &&& start_step_fits(self@, *user, r->Ok_0->Start_0)
                },
                UserAction::GuessWord { word } => if valid_guess(word@) {
                    &&& r is Ok
                    &&& r->Ok_0 is Guess
                    &&& guess_step_fits(self@, *user, word@, r->Ok_0->Guess_0)
                } else {
                    r is Err && r->Err_0 == SessionError::InvalidGuess
                },
            },
    {
        match action {
            UserAction::StartGame => match self.handle_start(user) {
                Ok(step) => Ok(Step::Start(step)),
                Err(e) => Err(e),
            },
            UserAction::GuessWord { word } => match self.handle_guess(user, word.as_str()) {
                Ok(step) => Ok(Step::Guess(step)),
                Err(e) => Err(e),
            },
        }
    }

    /// Takes a start request. While the user's game is in progress the stored
    /// reply is sent again and the oracle is not asked; otherwise the oracle is
    /// asked to start a game for this user. Nothing is written either way.
    pub fn handle_start(&self, user: &ActorId) -> (r: Result<StartStep, SessionError>)
        ensures
            !self.initialized() ==> uninitialized(r),
            self.initialized() ==> r is Ok && start_step_fits(self@, *user, r->Ok_0),
    {
        if self.wordle_id.is_none() {
            return Err(SessionError::UninitializedState);
        }
        match self.sessions.find(user) {
            Some(session) => {
                if session.status == UserStatus::GameStarted {
                    Ok(StartStep::Replay(copy_event(&session.last_event)))
                } else {
                    Ok(StartStep::AskOracle(Action::StartGame { user: *user }))
                }
            },
            None => Ok(StartStep::AskOracle(Action::StartGame { user: *user })),
        }
    }

    /// Takes the oracle's reply to a start request made for `user`. An
    /// acknowledgment for this user resets the user's record to a game in
    /// progress with no tries, and gives the reply to send and the deferred
    /// check to schedule. Any other reply is a protocol violation and leaves
    /// every record as it was.
    pub fn finish_start(&mut self, user: &ActorId, event: &Event) -> (r: Result<
        Started,
        SessionError,
    >)
        ensures
            final(self).oracle() == old(self).oracle(),
            final(self).in_order(),
            !old(self).initialized() ==> uninitialized(r) && final(self)@ == old(self)@,
            old(self).initialized() ==> match *event {
                Event::GameStarted { user: named } if named == *user => {
                    &&& final(self)@ == after_start(old(self)@, *user)
                    &&& r is Ok
                    &&& r->Ok_0.reply@ == crate::model::started_event()
                    &&& r->Ok_0.check.user == *user
                    &&& r->Ok_0.delay == MAX_BLOCKS
                },
                _ => final(self)@ == old(self)@ && r == Err::<Started, SessionError>(
                    SessionError::ProtocolViolation,
                ),
            },
    {
        proof {
            use_type_invariant(&*self);
        }
        if self.wordle_id.is_none() {
            return Err(SessionError::UninitializedState);
        }
        match event {
            Event::GameStarted { user: named } => {
                if !same_actor(named, user) {
                    return Err(SessionError::ProtocolViolation);
                }
            },
            Event::WordChecked { .. } => {
                return Err(SessionError::ProtocolViolation);
            },
        }
        let session = UserSession {
            status: UserStatus::GameStarted,
            tries: 0,
            correct_position: Vec::new(),
            contained_in_word: Vec::new(),
            last_event: started_reply(),
        };
        proof {
            lemma_put_keeps_consistent(self.sessions@, *user, session@);
        }
        self.sessions.put(*user, session);
        Ok(Started { reply: started_reply(), check: CheckGameStatus { user: *user }, delay: MAX_BLOCKS })
    }

    /// Takes a guess. A guess that is not acceptable is rejected before
    /// anything else is looked at. Otherwise: while the user's game is in
    /// progress the oracle is asked about the word; once it has ended the
    /// stored reply is sent again; a user without a game is told so. Nothing is
    /// written in any case.
    pub fn handle_guess(&self, user: &ActorId, word: &str) -> (r: Result<GuessStep, SessionError>)
        ensures
            !self.initialized() ==> uninitialized(r),
            self.initialized() && !valid_guess(word@) ==> r == Err::<GuessStep, SessionError>(
                SessionError::InvalidGuess,
            ),
            self.initialized() && valid_guess(word@) ==> r is Ok && guess_step_fits(
                self@,
                *user,
                word@,
                r->Ok_0,
            ),
    {
        if self.wordle_id.is_none() {
            return Err(SessionError::UninitializedState);
        }
        match check(word) {
            Err(e) => {
                return Err(e);
            },
            Ok(_) => {},
        }
        match self.sessions.find(user) {
            Some(session) => {
                match session.status {
                    UserStatus::GameStarted => Ok(
                        GuessStep::AskOracle(
                            Action::CheckWord { user: *user, word: String::from_str(word) },
                        ),
                    ),
                    UserStatus::GameOver(_) => Ok(
                        GuessStep::Reply(copy_event(&session.last_event)),
                    ),
                    UserStatus::GameNotStarted => Ok(GuessStep::Reply(not_started_reply())),
                }
            },
            None => Ok(GuessStep::Reply(not_started_reply())),
        }
    }

    /// Takes the oracle's reply to a guess made for `user`, which must be an
    /// answer for this user, who must have a record; any other reply is a
    /// protocol violation and leaves every record as it was.
    ///
    /// The record is read again here, and only what it says now decides. The
    /// answer replaces the stored positions. If the game is still in progress,
    /// the answer counts as one more try and the rule of the game gives the new
    /// status. If the game has ended while the oracle was asked, its status and
    /// tries stand, and the reply is marked as overtaken by the time limit.
    /// The reply is stored as the user's latest and given back to be sent.
    pub fn finish_guess(&mut self, user: &ActorId, event: &Event) -> (r: Result<
        UserEvent,
        SessionError,
    >)
        ensures
            final(self).oracle() == old(self).oracle(),
            final(self).in_order(),
            !old(self).initialized() ==> uninitialized(r) && final(self)@ == old(self)@,
            old(self).initialized() ==> match *event {
                Event::WordChecked { user: named, correct_position, contained_in_word }
                    if named == *user && old(self)@.dom().contains(*user) => {
                    &&& r is Ok
                    &&& final(self)@ == after_guess(
                        old(self)@,
                        *user,
                        correct_position@,
                        contained_in_word@,
                    )
                    &&& r->Ok_0@ == final(self)@[*user].last_event
                },
                _ => final(self)@ == old(self)@ && r == Err::<UserEvent, SessionError>(
                    SessionError::ProtocolViolation,
                ),
            },
    {
        proof {
            use_type_invariant(&*self);
        }
        if self.wordle_id.is_none() {
            return Err(SessionError::UninitializedState);
        }
        match event {
            Event::WordChecked { user: named, correct_position, contained_in_word } => {
                if !same_actor(named, user) {
                    return Err(SessionError::ProtocolViolation);
                }
                let next = match self.sessions.find(user) {
                    Some(session) => {
                        assert(record_in_order(session@));
                        let written = update_position_and_contained_map(
                            session,
                            correct_position,
                            contained_in_word,
                        );
                        judge_record(&written)
                    },
                    None => {
                        return Err(SessionError::ProtocolViolation);
                    },
                };
                let reply = copy_event(&next.last_event);
                proof {
                    lemma_put_keeps_consistent(self.sessions@, *user, next@);
                }
                self.sessions.put(*user, next);
                Ok(reply)
            },
            Event::GameStarted { .. } => Err(SessionError::ProtocolViolation),
        }
    }

    /// Replies to a guess of `user_id`, where `user_status` is the status that
    /// was read before the reply was due. The record is read again here.
    ///
    /// Where a game was seen in progress, the record is judged as it stands:
    /// if the game still is in progress, the rule of the game gives the new
    /// status; if it has ended meanwhile, its status stands and the reply is
    /// marked as overtaken by the time limit. The reply is stored as the
    /// user's latest. Where a game was seen ended, the stored reply is given
    /// again, as it is. Where none was seen, or the user has no record, the
    /// reply says that no game has started. In the last two cases nothing is
    /// written.
    pub fn update_user_status_and_reply(
        &mut self,
        user_id: &ActorId,
        user_status: &Option<UserStatus>,
    ) -> (r: Result<UserEvent, SessionError>)
        ensures
            final(self).oracle() == old(self).oracle(),
            final(self).in_order(),
            !old(self).initialized() ==> uninitialized(r) && final(self)@ == old(self)@,
            old(self).initialized() ==> {
                &&& r is Ok
                &&& r->Ok_0@ == reply_for(old(self)@, *user_id, *user_status)
                &&& final(self)@ == records_after_reply(old(self)@, *user_id, *user_status)
            },
    {
        proof {
            use_type_invariant(&*self);
        }
        if self.wordle_id.is_none() {
            return Err(SessionError::UninitializedState);
        }
        let session = match self.sessions.find(user_id) {
            Some(session) => session,
            None => {
                return Ok(not_started_reply());
            },
        };
        match user_status {
            Some(UserStatus::GameStarted) => {
                let next = judge_record(session);
                let reply = copy_event(&next.last_event);
                proof {
                    assert(record_in_order(session@));
                    lemma_reconcile(self.sessions@, *user_id, Seq::empty(), Seq::empty());
                    lemma_put_keeps_consistent(self.sessions@, *user_id, next@);
                }
                self.sessions.put(*user_id, next);
                Ok(reply)
            },
            Some(UserStatus::GameOver(_)) => Ok(copy_event(&session.last_event)),
            _ => Ok(not_started_reply()),
        }
    }

    /// Enforces the time limit on `user`: a game still in progress is lost,
    /// and the stored reply now says so and is marked as timed out. An ended
    /// game, or no game, is left as it is. No reply is sent.
    pub fn check_game_status(&mut self, user: &ActorId) -> (r: Result<(), SessionError>)
        ensures
            final(self).oracle() == old(self).oracle(),
            final(self).in_order(),
            !old(self).initialized() ==> uninitialized(r) && final(self)@ == old(self)@,
            old(self).initialized() ==> r is Ok && final(self)@ == after_timeout(
                old(self)@,
                *user,
            ),
    {
        proof {
            use_type_invariant(&*self);
        }
        if self.wordle_id.is_none() {
            return Err(SessionError::UninitializedState);
        }
        let next = match self.sessions.find(user) {
            Some(session) => {
                assert(record_in_order(session@));
                if session.status == UserStatus::GameStarted {
                    let last_event = match &session.last_event {
                        UserEvent::Result {
                            user_status: _,
                            correct_position,
                            contained_in_word,
                            max_tries,
                            tries,
                            time_out: _,
                        } => UserEvent::Result {
                            user_status: UserStatus::GameOver(GameOver::Lose),
                            correct_position: copy_text(correct_position),
                            contained_in_word: copy_text(contained_in_word),
                            max_tries: *max_tries,
                            tries: *tries,
                            time_out: Some(true),
                        },
                    };
                    UserSession {
                        status: UserStatus::GameOver(GameOver::Lose),
                        tries: session.tries,
                        correct_position: copy_bytes(&session.correct_position),
                        contained_in_word: copy_bytes(&session.contained_in_word),
                        last_event,
                    }
                } else {
                    proof {
                        assert(self@ =~= after_timeout(self@, *user));
                    }
                    return Ok(());
                }
            },
            None => {
                return Ok(());
            },
        };
        proof {
            lemma_put_keeps_consistent(self.sessions@, *user, next@);
        }
        self.sessions.put(*user, next);
        Ok(())
    }

    /// The snapshot for a state query: every user that has a record, once,
    /// with the status of the record, in no particular order; and the three
    /// settings.
    pub fn state(&self) -> (r: ProgramStatus)
        ensures
            r.word_length == Some(WORD_LENGTH as u32),
            r.max_tries == Some(MAX_TRIES),
            r.max_blocks == Some(MAX_BLOCKS),
            r.user_status_list is Some <==> self.initialized(),
            self.initialized() ==> listed(self@, r.user_status_list->Some_0@),
    {
        let user_status_list = if self.wordle_id.is_some() {
            Some(self.sessions.statuses())
        } else {
            None
        };
        ProgramStatus {
            user_status_list,
            word_length: Some(WORD_LENGTH as u32),
            max_tries: Some(MAX_TRIES),
            max_blocks: Some(MAX_BLOCKS),
        }
    }
}

/// `list` names every user that has a record exactly once, with the status
/// of the record.
pub open spec fn listed(s: Sessions, list: Seq<(ActorId, UserStatus)>) -> bool {
    &&& forall|i: int|
        0 <= i < list.len() ==> s.dom().contains((#[trigger] list[i]).0) && list[i].1
            == s[list[i].0].status
    &&& forall|u: ActorId| #[trigger]
        s.dom().contains(u) ==> exists|i: int| 0 <= i < list.len() && (#[trigger] list[i]).0 == u
    &&& forall|i: int, j: int|
        0 <= i < j < list.len() ==> (#[trigger] list[i]).0 != (#[trigger] list[j]).0
}

/// The reply that acknowledges a new game.
pub fn started_reply() -> (r: UserEvent)
    ensures
        r@ == crate::model::started_event(),
{
    UserEvent::Result {
        user_status: UserStatus::GameStarted,
        correct_position: None,
        contained_in_word: None,
        max_tries: MAX_TRIES,
        tries: None,
        time_out: None,
    }
}

} // verus!
