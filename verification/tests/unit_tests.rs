use game_session::io::{Action, Event, GameOver, UserEvent, UserStatus};
use game_session::oracle::handle;
use game_session::session::{GameSession, GuessStep, StartStep};
use game_session::text::vec_u8_to_comma_separated_string;
use gstd::ActorId;

const USER_0: u64 = 100;
const USER_1: u64 = 101;
const USER_2: u64 = 102;

const MAX_TRIES: u32 = 6;
const WORD_LENGTH: usize = 5;

fn init_program() -> (GameSession, Vec<ActorId>) {
    let mut users: Vec<ActorId> = Vec::new();
    users.push(ActorId::from(USER_2));
    users.push(ActorId::from(USER_1));
    users.push(ActorId::from(USER_0));
    let wordle_id = ActorId::from(1u64);
    let mut session = GameSession::new();
    session.init(wordle_id);
    assert_eq!(session.wordle_id(), Some(wordle_id));
    (session, users)
}

// Stands in for the word oracle, whose secret is "house".
fn oracle_reply(action: &Action) -> Event {
    handle(action, Some("house"), 0).expect("the oracle answers").event
}

fn start_game(session: &mut GameSession, user: ActorId) {
    let reply = match session.handle_start(&user).unwrap() {
        StartStep::Replay(event) => event,
        StartStep::AskOracle(action) => {
            assert!(matches!(action, Action::StartGame { user: named } if named == user));
            let started = session.finish_start(&user, &oracle_reply(&action)).unwrap();
            assert_eq!(started.check.user, user);
            assert_eq!(started.delay, 100);
            started.reply
        }
    };
    let log = UserEvent::Result {
        user_status: UserStatus::GameStarted,
        correct_position: None,
        contained_in_word: None,
        max_tries: MAX_TRIES,
        tries: None,
        time_out: None,
    };
    assert_eq!(reply, log);
}

fn repeat_start_game_in_guesses(session: &mut GameSession, user: ActorId, log: &UserEvent) {
    match session.handle_start(&user).unwrap() {
        StartStep::Replay(event) => assert_eq!(&event, log),
        StartStep::AskOracle(_) => panic!("a game in progress is not started again"),
    }
}

fn send_guess(session: &mut GameSession, user: ActorId, word: &str) -> UserEvent {
    match session.handle_guess(&user, word).unwrap() {
        GuessStep::Reply(event) => event,
        GuessStep::AskOracle(action) => {
            assert!(matches!(&action, Action::CheckWord { user: named, word: sent }
                if *named == user && sent == word));
            session.finish_guess(&user, &oracle_reply(&action)).unwrap()
        }
    }
}

fn guess_word(
    session: &mut GameSession,
    user: ActorId,
    word: &str,
    user_status: UserStatus,
    tries: u32,
) -> UserEvent {
    let result = send_guess(session, user, word);
    let answer = "house";

    let mut matched_indices = Vec::with_capacity(WORD_LENGTH);
    let mut key_indices = Vec::with_capacity(WORD_LENGTH);

    for (i, (a, b)) in answer.chars().zip(word.chars()).enumerate() {
        if a == b {
            matched_indices.push(i as u8);
        } else if answer.contains(b) {
            key_indices.push(i as u8);
        }
    }

    let correct_poses = vec_u8_to_comma_separated_string(&matched_indices);
    let contained_poses = vec_u8_to_comma_separated_string(&key_indices);

    let log = UserEvent::Result {
        user_status,
        correct_position: Some(correct_poses),
        contained_in_word: Some(contained_poses),
        max_tries: MAX_TRIES,
        tries: Some(tries),
        time_out: Some(false),
    };
    assert_eq!(result, log);

    log
}

fn guess_word_without_start(session: &mut GameSession, user: ActorId, word: &str) {
    let result = send_guess(session, user, word);
    let log = UserEvent::Result {
        user_status: UserStatus::GameNotStarted,
        correct_position: None,
        contained_in_word: None,
        max_tries: MAX_TRIES,
        tries: None,
        time_out: None,
    };
    assert_eq!(result, log);
}

fn read_state(session: &GameSession) {
    let program_status = session.state();
    assert!(program_status.user_status_list.is_some());
    assert_eq!(program_status.word_length, Some(5));
    assert_eq!(program_status.max_tries, Some(6));
}

#[test]
fn test_init() {
    let (session, _) = init_program();

    read_state(&session);
}

#[test]
fn test_start_game() {
    let (mut session, users) = init_program();

    start_game(&mut session, users[0]);
}

#[test]
fn test_guess_word_win() {
    let (mut session, users) = init_program();

    start_game(&mut session, users[1]);
    start_game(&mut session, users[1]);

    guess_word(&mut session, users[1], "hello", UserStatus::GameStarted, 1);
    let log = guess_word(&mut session, users[1], "horse", UserStatus::GameStarted, 2);
    repeat_start_game_in_guesses(&mut session, users[1], &log);
    guess_word(&mut session, users[1], "house", UserStatus::GameOver(GameOver::Win), 3);
    guess_word(&mut session, users[1], "house", UserStatus::GameOver(GameOver::Win), 3);
}

#[test]
fn test_guess_word_lose() {
    let (mut session, users) = init_program();

    start_game(&mut session, users[1]);
    start_game(&mut session, users[1]);

    guess_word(&mut session, users[1], "hello", UserStatus::GameStarted, 1);
    let mut log = guess_word(&mut session, users[1], "horse", UserStatus::GameStarted, 2);
    repeat_start_game_in_guesses(&mut session, users[1], &log);
    guess_word(&mut session, users[1], "hawck", UserStatus::GameStarted, 3);
    log = guess_word(&mut session, users[1], "happy", UserStatus::GameStarted, 4);
    repeat_start_game_in_guesses(&mut session, users[1], &log);
    guess_word(&mut session, users[1], "human", UserStatus::GameStarted, 5);
    guess_word(&mut session, users[1], "human", UserStatus::GameOver(GameOver::Lose), 6);
    guess_word(&mut session, users[1], "human", UserStatus::GameOver(GameOver::Lose), 6);
}

#[test]
fn test_guess_word_failure() {
    let (mut session, users) = init_program();

    guess_word_without_start(&mut session, users[1], "aaaaa");
    guess_word_without_start(&mut session, users[1], "aaaaa");
}

#[test]
fn test_multi_users_guess_word() {
    let (mut session, users) = init_program();

    start_game(&mut session, users[1]);
    start_game(&mut session, users[2]);

    guess_word(&mut session, users[1], "hello", UserStatus::GameStarted, 1);
    guess_word(&mut session, users[2], "hello", UserStatus::GameStarted, 1);

    start_game(&mut session, users[0]);

    guess_word(&mut session, users[2], "horse", UserStatus::GameStarted, 2);
    guess_word(&mut session, users[0], "humor", UserStatus::GameStarted, 1);
    guess_word(&mut session, users[1], "horse", UserStatus::GameStarted, 2);
    guess_word(&mut session, users[0], "happy", UserStatus::GameStarted, 2);
    guess_word(&mut session, users[0], "human", UserStatus::GameStarted, 3);

    guess_word(&mut session, users[1], "house", UserStatus::GameOver(GameOver::Win), 3);
    guess_word(&mut session, users[0], "horse", UserStatus::GameStarted, 4);

    guess_word(&mut session, users[2], "happy", UserStatus::GameStarted, 3);
    guess_word(&mut session, users[2], "happy", UserStatus::GameStarted, 4);

    guess_word(&mut session, users[0], "hello", UserStatus::GameStarted, 5);

    guess_word(&mut session, users[2], "happy", UserStatus::GameStarted, 5);

    guess_word(&mut session, users[0], "house", UserStatus::GameOver(GameOver::Win), 6);

    guess_word(&mut session, users[2], "happy", UserStatus::GameOver(GameOver::Lose), 6);
}
