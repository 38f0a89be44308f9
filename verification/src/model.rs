use vstd::prelude::*;
use gstd::ActorId;
use crate::io::{GameOver, UserEventView, UserStatus, MAX_TRIES, WORD_LENGTH};
use crate::table::SessionView;
use crate::text::comma_joined;

verus! {

/// Every user's record.
pub type Sessions = Map<ActorId, SessionView>;

/// Where `user` stands: a user without a record has not started.
pub open spec fn status_of(s: Sessions, user: ActorId) -> UserStatus {
    if s.dom().contains(user) {
        s[user].status
    } else {
        UserStatus::GameNotStarted
    }
}

/// Whether a status is final.
pub open spec fn is_over(status: UserStatus) -> bool {
    status is GameOver
}

/// The reply to a user who has no game.
pub open spec fn not_started_event() -> UserEventView {
    UserEventView {
        user_status: UserStatus::GameNotStarted,
        correct_position: None,
        contained_in_word: None,
        max_tries: MAX_TRIES,
        tries: None,
        time_out: None,
    }
}

/// The reply that acknowledges a new game.
pub open spec fn started_event() -> UserEventView {
    UserEventView {
        user_status: UserStatus::GameStarted,
        correct_position: None,
        contained_in_word: None,
        max_tries: MAX_TRIES,
        tries: None,
        time_out: None,
    }
}

/// The record of a game that has just begun.
pub open spec fn fresh_session() -> SessionView {
    SessionView {
        status: UserStatus::GameStarted,
        tries: 0,
        correct_position: Seq::empty(),
        contained_in_word: Seq::empty(),
        last_event: started_event(),
    }
}

/// A guess is acceptable when it has exactly the word's length and every
/// character is a lowercase letter from `a` to `z`.
pub open spec fn valid_guess(word: Seq<char>) -> bool {
    &&& word.len() == WORD_LENGTH
    &&& forall|i: int| 0 <= i < word.len() ==> 'a' <= #[trigger] word[i] <= 'z'
}

/// The game's rule: a guess with every position right wins; otherwise the
/// last allowed try loses; otherwise the game goes on.
pub open spec fn judged_status(correct_len: nat, tries: u32) -> UserStatus {
    if correct_len == WORD_LENGTH {
        UserStatus::GameOver(GameOver::Win)
    } else if tries >= MAX_TRIES {
        UserStatus::GameOver(GameOver::Lose)
    } else {
        UserStatus::GameStarted
    }
}

/// A record after the oracle's answer to a guess was written down: the
/// answer replaces the stored positions, and it counts as one more try if
/// the game is still in progress. The tries of an ended game stay as they
/// are.
pub open spec fn recorded(
    session: SessionView,
    correct: Seq<u8>,
    contained: Seq<u8>,
) -> SessionView {
    SessionView {
        tries: if session.status == UserStatus::GameStarted {
            (session.tries + 1) as u32
        } else {
            session.tries
        },
        correct_position: correct,
        contained_in_word: contained,
        ..session
    }
}

/// A record's tries are in order: never above the maximum, and below it
/// while the game is in progress.
pub open spec fn within_tries(session: SessionView) -> bool {
    &&& session.tries <= MAX_TRIES
    &&& session.status == UserStatus::GameStarted ==> session.tries < MAX_TRIES
}

/// Every record's tries are in order.
pub open spec fn bounded(s: Sessions) -> bool {
    forall|u: ActorId| s.dom().contains(u) ==> within_tries(#[trigger] s[u])
}

/// What an optional text of positions says about a list of positions: the
/// list written out, or nothing where no answer was stored yet.
pub open spec fn tells(text: Option<Seq<char>>, positions: Seq<u8>) -> bool {
    match text {
        Some(t) => t == comma_joined(positions),
        None => positions.len() == 0,
    }
}

/// A record's stored reply tells the truth about the record: its status,
/// its tries (none reported before the first answer), its positions and the
/// maximum. A record is only kept for a game that was started.
pub open spec fn truthful(session: SessionView) -> bool {
    &&& !(session.status is GameNotStarted)
    &&& session.last_event.user_status == session.status
    &&& session.last_event.max_tries == MAX_TRIES
    &&& match session.last_event.tries {
        Some(t) => t == session.tries,
        None => session.tries == 0,
    }
    &&& tells(session.last_event.correct_position, session.correct_position)
    &&& tells(session.last_event.contained_in_word, session.contained_in_word)
}

/// A record is in order: its tries are, and its stored reply tells the
/// truth.
pub open spec fn record_in_order(session: SessionView) -> bool {
    within_tries(session) && truthful(session)
}

/// Every record is in order.
pub open spec fn consistent(s: Sessions) -> bool {
    forall|u: ActorId| s.dom().contains(u) ==> record_in_order(#[trigger] s[u])
}

/// A record after its latest answer was judged. A game still in progress
/// gets the status that the rule gives. A game that ended while the answer
/// was awaited keeps its status, and the reply is marked as overtaken.
pub open spec fn reconciled(session: SessionView) -> SessionView {
    let in_progress = session.status == UserStatus::GameStarted;
    let status = if in_progress {
        judged_status(session.correct_position.len(), session.tries)
    } else {
        session.status
    };
    SessionView {
        status,
        last_event: UserEventView {
            user_status: status,
            correct_position: Some(comma_joined(session.correct_position)),
            contained_in_word: Some(comma_joined(session.contained_in_word)),
            max_tries: MAX_TRIES,
            tries: Some(session.tries),
            time_out: Some(!in_progress),
        },
        ..session
    }
}

/// A record after its time limit was enforced: a game in progress is lost
/// and its stored reply says so; an ended game is left alone.
pub open spec fn expired(session: SessionView) -> SessionView {
    if session.status == UserStatus::GameStarted {
        SessionView {
            status: UserStatus::GameOver(GameOver::Lose),
            last_event: UserEventView {
                user_status: UserStatus::GameOver(GameOver::Lose),
                time_out: Some(true),
                ..session.last_event
            },
            ..session
        }
    } else {
        session
    }
}

/// The records after the oracle acknowledged a new game for `user`.
pub open spec fn after_start(s: Sessions, user: ActorId) -> Sessions {
    s.insert(user, fresh_session())
}

/// The records after a guess of `user` was answered and the answer was
/// written down and judged.
pub open spec fn after_guess(
    s: Sessions,
    user: ActorId,
    correct: Seq<u8>,
    contained: Seq<u8>,
) -> Sessions {
    if s.dom().contains(user) {
        s.insert(user, reconciled(recorded(s[user], correct, contained)))
    } else {
        s
    }
}

/// The records after the record of `user` was judged as it stands.
pub open spec fn after_reconcile(s: Sessions, user: ActorId) -> Sessions {
    if s.dom().contains(user) {
        s.insert(user, reconciled(s[user]))
    } else {
        s
    }
}

/// The records after a guess was replied to, where `seen` is the status that
/// was read before: only a game seen in progress has its record judged and
/// written; otherwise nothing is written.
pub open spec fn records_after_reply(
    s: Sessions,
    user: ActorId,
    seen: Option<UserStatus>,
) -> Sessions {
    if seen == Some(UserStatus::GameStarted) {
        after_reconcile(s, user)
    } else {
        s
    }
}

/// The reply to a guess, where `seen` is the status that was read before. A
/// game seen in progress gets the reply that judging its record gives. A
/// game seen ended gets the stored reply, as it is. Where no game was seen,
/// or the user has no record, the reply says that no game has started.
pub open spec fn reply_for(s: Sessions, user: ActorId, seen: Option<UserStatus>) -> UserEventView {
    if !s.dom().contains(user) {
        not_started_event()
    } else {
        match seen {
            Some(UserStatus::GameStarted) => reconciled(s[user]).last_event,
            Some(UserStatus::GameOver(_)) => s[user].last_event,
            _ => not_started_event(),
        }
    }
}

/// The records after the deferred check for `user` came due.
pub open spec fn after_timeout(s: Sessions, user: ActorId) -> Sessions {
    if s.dom().contains(user) {
        s.insert(user, expired(s[user]))
    } else {
        s
    }
}

/// What a start request is answered with at once: the stored reply while a
/// game is in progress, nothing (the oracle must be asked) otherwise.
pub open spec fn start_replay(s: Sessions, user: ActorId) -> Option<UserEventView> {
    if status_of(s, user) == UserStatus::GameStarted {
        Some(s[user].last_event)
    } else {
        None
    }
}

/// What a guess is answered with at once: the stored reply once the game
/// has ended, the not-started reply where there is no game, and nothing
/// (the oracle must be asked) while a game is in progress.
pub open spec fn guess_replay(s: Sessions, user: ActorId) -> Option<UserEventView> {
    match status_of(s, user) {
        UserStatus::GameStarted => None,
        UserStatus::GameOver(_) => Some(s[user].last_event),
        UserStatus::GameNotStarted => Some(not_started_event()),
    }
}

/// One change to the records.
pub enum Change {
    /// The oracle acknowledged a new game for the user.
    Started { user: ActorId },
    /// The oracle answered a guess of the user, and the answer was judged.
    Answered { user: ActorId, correct: Seq<u8>, contained: Seq<u8> },
    /// The user's deferred check came due.
    TimedOut { user: ActorId },
}

/// The records after one change.
pub open spec fn apply(s: Sessions, change: Change) -> Sessions {
    match change {
        Change::Started { user } => after_start(s, user),
        Change::Answered { user, correct, contained } => after_guess(s, user, correct, contained),
        Change::TimedOut { user } => after_timeout(s, user),
    }
}

/// The records after a run of changes, in order.
pub open spec fn run(s: Sessions, changes: Seq<Change>) -> Sessions
    decreases changes.len(),
{
    if changes.len() == 0 {
        s
    } else {
        apply(run(s, changes.drop_last()), changes.last())
    }
}

/// A second start request right after an acknowledged one is answered with
/// the very reply that acknowledged the first, and the oracle is not asked.
pub proof fn law_repeated_start_replays(s: Sessions, user: ActorId)
    ensures
        after_start(s, user)[user].last_event == started_event(),
        start_replay(after_start(s, user), user) == Some(started_event()),
{
}

/// Once a user's game has ended, a further guess is answered with the stored
/// reply, which is the one that the ending guess was answered with.
pub proof fn law_guess_after_end_replays(
    s: Sessions,
    user: ActorId,
    correct: Seq<u8>,
    contained: Seq<u8>,
)
    requires
        s.dom().contains(user),
        is_over(status_of(after_guess(s, user, correct, contained), user)),
    ensures
        guess_replay(after_guess(s, user, correct, contained), user) == Some(
            after_guess(s, user, correct, contained)[user].last_event,
        ),
        is_over(status_of(s, user)) ==> guess_replay(s, user) == Some(s[user].last_event),
{
}

/// A guess that finds the game ended is replied to with the stored reply,
/// field for field, and nothing is written: no record changes, and nothing
/// is computed anew from the positions.
pub proof fn law_ended_game_replays(s: Sessions, user: ActorId, over: GameOver)
    requires
        s.dom().contains(user),
    ensures
        reply_for(s, user, Some(UserStatus::GameOver(over))) == s[user].last_event,
        records_after_reply(s, user, Some(UserStatus::GameOver(over))) == s,
        s[user].status == UserStatus::GameOver(over) ==> guess_replay(s, user) == Some(
            reply_for(s, user, Some(s[user].status)),
        ),
{
}

/// Judging a record that is in order leaves it in order, and writing down
/// an answer and judging it is the same as one answered guess.
pub proof fn lemma_reconcile(s: Sessions, user: ActorId, correct: Seq<u8>, contained: Seq<u8>)
    ensures
        s.dom().contains(user) && record_in_order(s[user]) ==> record_in_order(
            reconciled(s[user]),
        ),
        s.dom().contains(user) ==> after_guess(s, user, correct, contained) == after_reconcile(
            s.insert(user, recorded(s[user], correct, contained)),
            user,
        ),
{
    if s.dom().contains(user) {
        assert(after_guess(s, user, correct, contained) =~= after_reconcile(
            s.insert(user, recorded(s[user], correct, contained)),
            user,
        ));
    }
}

/// A final status stays: whatever answers and deferred checks follow, for
/// this user or another, a game that was won stays won and one that was lost
/// stays lost, until the oracle acknowledges a new game for the user.
pub proof fn law_final_status_stays(s: Sessions, changes: Seq<Change>, user: ActorId)
    requires
        is_over(status_of(s, user)),
        forall|i: int|
            0 <= i < changes.len() ==> !(#[trigger] changes[i] is Started && changes[i]->Started_user
                == user),
    ensures
        status_of(run(s, changes), user) == status_of(s, user),
    decreases changes.len(),
{
    if changes.len() > 0 {
        let before = changes.drop_last();
        assert forall|i: int| 0 <= i < before.len() implies !(#[trigger] before[i] is Started
            && before[i]->Started_user == user) by {
            assert(before[i] == changes[i]);
        }
        law_final_status_stays(s, before, user);
        assert(!(changes[changes.len() - 1] is Started && changes[changes.len() - 1]->Started_user
            == user));
    }
}

/// The tries never exceed the maximum, and a game in progress always has a
/// try left: whatever starts, answers and deferred checks come, in whatever
/// order and for whichever users, every record's tries stay in order.
pub proof fn law_tries_bounded(s: Sessions, changes: Seq<Change>)
    requires
        bounded(s),
    ensures
        bounded(run(s, changes)),
    decreases changes.len(),
{
    if changes.len() > 0 {
        law_tries_bounded(s, changes.drop_last());
        let before = run(s, changes.drop_last());
        let after = apply(before, changes.last());
        assert forall|u: ActorId| after.dom().contains(u) implies within_tries(
            #[trigger] after[u],
        ) by {
            if before.dom().contains(u) {
                assert(within_tries(before[u]));
            }
        }
    }
}

/// The stored reply is always the latest truth: whatever starts, answers and
/// deferred checks come, every record stays in order, so that its stored
/// reply reports the record's own status, tries and positions.
pub proof fn law_records_stay_consistent(s: Sessions, changes: Seq<Change>)
    requires
        consistent(s),
    ensures
        consistent(run(s, changes)),
        bounded(run(s, changes)),
    decreases changes.len(),
{
    if changes.len() > 0 {
        law_records_stay_consistent(s, changes.drop_last());
        let before = run(s, changes.drop_last());
        let after = apply(before, changes.last());
        assert forall|u: ActorId| after.dom().contains(u) implies record_in_order(
            #[trigger] after[u],
        ) by {
            if before.dom().contains(u) {
                assert(record_in_order(before[u]));
            }
        }
    }
    assert forall|u: ActorId| run(s, changes).dom().contains(u) implies within_tries(
        #[trigger] run(s, changes)[u],
    ) by {
        assert(record_in_order(run(s, changes)[u]));
    }
}

/// An answer that is judged while the game is in progress counts as exactly
/// one try; where it uses the last try without every position right, the
/// game is lost. An answer that comes after the game has ended counts as
/// none.
pub proof fn law_answer_counts_once(
    s: Sessions,
    user: ActorId,
    correct: Seq<u8>,
    contained: Seq<u8>,
)
    requires
        bounded(s),
        s.dom().contains(user),
    ensures
        status_of(s, user) == UserStatus::GameStarted ==> after_guess(
            s,
            user,
            correct,
            contained,
        )[user].tries == s[user].tries + 1,
        status_of(s, user) == UserStatus::GameStarted && s[user].tries + 1 == MAX_TRIES
            && correct.len() != WORD_LENGTH ==> status_of(
            after_guess(s, user, correct, contained),
            user,
        ) == UserStatus::GameOver(GameOver::Lose),
        is_over(status_of(s, user)) ==> after_guess(s, user, correct, contained)[user].tries
            == s[user].tries,
{
    assert(within_tries(s[user]));
}

/// A game in progress is won by an answer exactly when the answer has every
/// position of the word right.
pub proof fn law_win_iff_all_correct(
    s: Sessions,
    user: ActorId,
    correct: Seq<u8>,
    contained: Seq<u8>,
)
    requires
        status_of(s, user) == UserStatus::GameStarted,
    ensures
        status_of(after_guess(s, user, correct, contained), user) == UserStatus::GameOver(
            GameOver::Win,
        ) <==> correct.len() == WORD_LENGTH,
        after_guess(s, user, correct, contained)[user].last_event.time_out == Some(false),
{
}

/// Where the deferred check comes due before the answer to a guess in flight
/// is judged, the game is lost and the reply is marked as timed out, whatever
/// the answer holds: a late answer never wins.
pub proof fn law_timeout_beats_answer(
    s: Sessions,
    user: ActorId,
    correct: Seq<u8>,
    contained: Seq<u8>,
)
    requires
        status_of(s, user) == UserStatus::GameStarted,
    ensures
        status_of(after_guess(after_timeout(s, user), user, correct, contained), user)
            == UserStatus::GameOver(GameOver::Lose),
        after_guess(
            after_timeout(s, user),
            user,
            correct,
            contained,
        )[user].last_event.user_status == UserStatus::GameOver(GameOver::Lose),
        after_guess(after_timeout(s, user), user, correct, contained)[user].last_event.time_out
            == Some(true),
{
}

} // verus!
