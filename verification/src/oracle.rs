use vstd::prelude::*;
use vstd::string::*;
use crate::io::{Action, Event, WORD_LENGTH};

verus! {

/// The positions below `n`, in rising order, at which the guess has the
/// secret's letter.
pub open spec fn correct_positions(secret: Seq<char>, guess: Seq<char>, n: nat) -> Seq<u8>
    decreases n,
{
    if n == 0 {
        Seq::<u8>::empty()
    } else if secret[n - 1] == guess[n - 1] {
        correct_positions(secret, guess, (n - 1) as nat).push((n - 1) as u8)
    } else {
        correct_positions(secret, guess, (n - 1) as nat)
    }
}

/// The positions below `n`, in rising order, at which the guess has a
/// letter that differs from the secret's there but occurs somewhere in the
/// secret.
pub open spec fn contained_positions(secret: Seq<char>, guess: Seq<char>, n: nat) -> Seq<u8>
    decreases n,
{
    if n == 0 {
        Seq::<u8>::empty()
    } else if secret[n - 1] != guess[n - 1] && secret.contains(guess[n - 1]) {
        contained_positions(secret, guess, (n - 1) as nat).push((n - 1) as u8)
    } else {
        contained_positions(secret, guess, (n - 1) as nat)
    }
}

/// Among the first `n` positions, at most `n` are right, and all `n` are
/// right exactly when the guess agrees with the secret on every one of them.
pub proof fn lemma_all_correct(secret: Seq<char>, guess: Seq<char>, n: nat)
    requires
        n <= secret.len(),
        n <= guess.len(),
    ensures
        correct_positions(secret, guess, n).len() <= n,
        correct_positions(secret, guess, n).len() == n <==> forall|i: int|
            0 <= i < n ==> secret[i] == guess[i],
    decreases n,
{
    if n > 0 {
        lemma_all_correct(secret, guess, (n - 1) as nat);
    }
}

/// A guess of as many characters as the word has every position right
/// exactly when it is the secret word itself.
pub proof fn law_all_correct_iff_same_word(secret: Seq<char>, guess: Seq<char>)
    requires
        secret.len() == WORD_LENGTH,
        guess.len() == WORD_LENGTH,
    ensures
        correct_positions(secret, guess, shared(secret, guess)).len() == WORD_LENGTH <==> guess
            == secret,
{
    lemma_all_correct(secret, guess, WORD_LENGTH as nat);
    if forall|i: int| 0 <= i < WORD_LENGTH ==> secret[i] == guess[i] {
        assert(guess =~= secret);
    }
}

/// Whether `c` occurs in `word`.
fn has_letter(word: &str, c: char) -> (r: bool)
    ensures
        r == word@.contains(c),
{
    let n = word.unicode_len();
    let mut i: usize = 0;
    while i < n
        invariant
            n == word@.len(),
            i <= n,
            forall|j: int| 0 <= j < i ==> word@[j] != c,
        decreases n - i,
    {
        if word.get_char(i) == c {
            return true;
        }
        i += 1;
    }
    false
}

/// The length of a text in bytes, as it is stored.
pub fn byte_len(word: &str) -> (n: usize)
    ensures
        n == vstd::utf8::encode_utf8(word@).len(),
        n == word.len(),
{
    word.as_bytes().len()
}

/// How many positions are compared: the least of the word's length and the
/// two texts' lengths in characters.
pub open spec fn shared(secret: Seq<char>, word: Seq<char>) -> nat {
    let reach = if secret.len() < word.len() {
        secret.len()
    } else {
        word.len()
    };
    if reach < WORD_LENGTH {
        reach
    } else {
        WORD_LENGTH as nat
    }
}

/// Compares a guess with the secret word, character by character, as far
/// as both reach. A guess whose length in bytes is not the word's length
/// gets no answer. The answer is the list of positions that are right, and
/// the list of positions whose letter is wrong there but occurs in the
/// secret.
pub fn check_word(secret: &str, word: &str) -> (r: Option<(Vec<u8>, Vec<u8>)>)
    ensures
        r is Some <==> word.len() == WORD_LENGTH,
        r is Some ==> r->Some_0.0@ == correct_positions(secret@, word@, shared(secret@, word@))
            && r->Some_0.1@ == contained_positions(secret@, word@, shared(secret@, word@)),
{
    if byte_len(word) != WORD_LENGTH {
        return None;
    }
    let reach = secret.unicode_len();
    let span = word.unicode_len();
    let mut matched: Vec<u8> = Vec::new();
    let mut present: Vec<u8> = Vec::new();
    let mut i: u8 = 0;
    while i < 5 && (i as usize) < reach && (i as usize) < span
        invariant
            reach == secret@.len(),
            span == word@.len(),
            i <= shared(secret@, word@),
            matched@ == correct_positions(secret@, word@, i as nat),
            present@ == contained_positions(secret@, word@, i as nat),
        decreases 5 - i,
    {
        let a = secret.get_char(i as usize);
        let b = word.get_char(i as usize);
        if a == b {
            matched.push(i);
        } else if has_letter(secret, b) {
            present.push(i);
        }
        i += 1;
    }
    Some((matched, present))
}

/// Why the oracle gives no answer.
#[derive(Debug, Clone, Copy, PartialEq, Eq, Structural)]
pub enum OracleError {
    /// The guess's length in bytes is not the word's length.
    WrongLength,
    /// No game was started for the user.
    NoGame,
}

/// The oracle's answer to a request.
#[derive(Debug, Clone)]
pub struct Answer {
    /// The reply to send.
    pub event: Event,
    /// The secret to keep for the user from now on, where a game starts.
    pub secret: Option<&'static str>,
}

/// Answers one request. `secret` is the word kept for the request's user,
/// if a game was started for that user; `random` is a random byte.
///
/// A start request is acknowledged for its user, and a word of the bank is
/// chosen by `random`. A guess is compared with the user's secret; it is
/// refused where its length in bytes is not the word's length, and otherwise
/// where the user has no game.
pub fn handle(action: &Action, secret: Option<&str>, random: u8) -> (r: Result<Answer, OracleError>)
    ensures
        match *action {
            Action::StartGame { user } => {
                &&& r is Ok
                &&& r->Ok_0.event == (Event::GameStarted { user })
                &&& r->Ok_0.secret is Some
                &&& r->Ok_0.secret->Some_0@ == "house"@
            },
            Action::CheckWord { user, word } => if vstd::utf8::encode_utf8(word@).len()
                != WORD_LENGTH {
                r is Err && r->Err_0 == OracleError::WrongLength
            } else if secret is None {
                r is Err && r->Err_0 == OracleError::NoGame
            } else {
                &&& r is Ok
                &&& r->Ok_0.secret is None
                &&& r->Ok_0.event is WordChecked
                &&& r->Ok_0.event->WordChecked_user == user
                &&& r->Ok_0.event->WordChecked_correct_position@ == correct_positions(
                    secret->Some_0@,
                    word@,
                    shared(secret->Some_0@, word@),
                )
                &&& r->Ok_0.event->WordChecked_contained_in_word@ == contained_positions(
                    secret->Some_0@,
                    word@,
                    shared(secret->Some_0@, word@),
                )
            },
        },
{
    match action {
        Action::StartGame { user } => {
            let index = get_random_value(random, BANK_SIZE);
            Ok(Answer { event: Event::GameStarted { user: *user }, secret: bank_word(index) })
        },
        Action::CheckWord { user, word } => {
            if byte_len(word.as_str()) != WORD_LENGTH {
                return Err(OracleError::WrongLength);
            }
            let key_word = match secret {
                Some(key_word) => key_word,
                None => {
                    return Err(OracleError::NoGame);
                },
            };
            match check_word(key_word, word.as_str()) {
                Some((correct_position, contained_in_word)) => Ok(
                    Answer {
                        event: Event::WordChecked {
                            user: *user,
                            correct_position,
                            contained_in_word,
                        },
                        secret: None,
                    },
                ),
                None => Err(OracleError::WrongLength),
            }
        },
    }
}

/// Words that the oracle chooses from.
pub const BANK_SIZE: u8 = 1;

/// The word of the bank at `index`, if the bank has that many.
pub fn bank_word(index: u8) -> (r: Option<&'static str>)
    ensures
        r is Some <==> index < BANK_SIZE,
        r is Some ==> r->Some_0@ == "house"@,
{
    if index == 0 {
        Some("house")
    } else {
        None
    }
}

/// The subject from which the host draws randomness: the program's own
/// identity with `seed` added to its first byte, wrapping round.
pub fn random_subject(program: [u8; 32], seed: u8) -> (r: [u8; 32])
    ensures
        r@ == program@.update(0, ((program[0] + seed) % 256) as u8),
{
    let mut subject = program;
    let first = subject[0].wrapping_add(seed);
    subject[0] = first;
    assert(subject@ =~= program@.update(0, ((program[0] + seed) % 256) as u8));
    subject
}

/// The seed for the next draw: one more, wrapping round.
pub fn next_seed(seed: u8) -> (r: u8)
    ensures
        r == (seed + 1) % 256,
{
    seed.wrapping_add(1)
}

/// Brings a random byte into the range below `range`.
pub fn get_random_value(random: u8, range: u8) -> (r: u8)
    requires
        range > 0,
    ensures
        r == random % range,
        r < range,
{
    random % range
}

} // verus!
