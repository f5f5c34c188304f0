//! The difficulty, the secret number, and the rules of one turn of play.

use crate::utils::{
    decimal_up_to, decimal_value, lemma_decimal_value_nonneg, is_decimal, is_decimal_exec, matches_word, matches_word_exec,
};
use rand::Rng;
use vstd::prelude::*;

verus! {

/// How many guesses a new game allows.
pub const GUESS_LIMIT: u32 = 10;

/// A named bound on the range of the secret number.
#[derive(Clone, Copy, Debug, PartialEq, Eq, Structural)]
pub enum Difficulty {
    Easy,
    Medium,
    Hard,
}

impl Difficulty {
    /// The largest secret number of this difficulty.
    pub open spec fn max_spec(self) -> u32 {
        match self {
            Difficulty::Easy => 10,
            Difficulty::Medium => 50,
            Difficulty::Hard => 100,
        }
    }

    pub fn max_num(self) -> (r: u32)
        ensures
            r == self.max_spec(),
    {
        match self {
            Difficulty::Easy => 10,
            Difficulty::Medium => 50,
            Difficulty::Hard => 100,
        }
    }

    /// Draws a secret number from `1..=max_num()`.
    pub fn gen_secret_number(self) -> (r: u32)
        ensures
            1 <= r <= self.max_spec(),
    {
        random_in_range(1, self.max_num())
    }

    /// The difficulty's name, for the line that confirms the choice.
    pub fn name(self) -> (r: String)
        ensures
            r@ == match self {
                Difficulty::Easy => "Easy"@,
                Difficulty::Medium => "Medium"@,
                Difficulty::Hard => "Hard"@,
            },
    {
        match self {
            Difficulty::Easy => String::from_str("Easy"),
            Difficulty::Medium => String::from_str("Medium"),
            Difficulty::Hard => String::from_str("Hard"),
        }
    }
}

/// Relies on rand's `thread_rng` and `Rng::gen_range` on an inclusive range:
/// the value drawn lies in the range, which is not empty here.
#[verifier::external_body]
fn random_in_range(low: u32, high: u32) -> (r: u32)
    requires
        low <= high,
    ensures
        low <= r <= high,
{
    rand::thread_rng().gen_range(low..=high)
}

/// The difficulty that the player's choice names: "2" is Medium, "3" is Hard,
/// and anything else is Easy.
pub open spec fn difficulty_of(choice: Seq<char>) -> Difficulty {
    if choice == "2"@ {
        Difficulty::Medium
    } else if choice == "3"@ {
        Difficulty::Hard
    } else {
        Difficulty::Easy
    }
}

/// Picks the difficulty that the player's answer names, Easy by default.
pub fn get_difficulty(choice: &str) -> (r: Difficulty)
    ensures
        r == difficulty_of(choice@),
{
    proof {
        reveal_strlit("2");
        reveal_strlit("3");
    }
    if matches_word_exec(choice, "2") {
        assert(choice@ =~= "2"@);
        Difficulty::Medium
    } else if matches_word_exec(choice, "3") {
        assert(choice@ =~= "3"@);
        Difficulty::Hard
    } else {
        assert(choice@ != "2"@ && choice@ != "3"@) by {
            if choice@ == "2"@ {
                assert(matches_word(choice@, "2"@));
            }
            if choice@ == "3"@ {
                assert(matches_word(choice@, "3"@));
            }
        }
        Difficulty::Easy
    }
}

/// One play session: the secret number is fixed, and `guesses_left` only
/// goes down.
#[derive(Clone, Copy, Debug, PartialEq, Eq, Structural)]
pub struct Game {
    pub difficulty: Difficulty,
    pub secret_number: u32,
    pub guesses_left: u32,
}

/// What a line of input means as a guess.
#[derive(Clone, Copy, Debug, PartialEq, Eq, Structural)]
pub enum Guess {
    /// The player gives up the game.
    Quit,
    /// A number within the difficulty's range.
    Number(u32),
}

/// Why a line of input is not taken as a guess. Neither costs a guess.
#[derive(Clone, Copy, Debug, PartialEq, Eq, Structural)]
pub enum GuessError {
    /// Digits that write a number above the difficulty's maximum.
    OutOfRange,
    /// Anything that is neither digits nor "quit".
    NotANumber,
}

impl GuessError {
    pub fn message(self) -> (r: String)
        ensures
            r@ == match self {
                GuessError::OutOfRange => "Guess is outside the range of possible numbers."@,
                GuessError::NotANumber => "I don't know what that means. Please enter a number."@,
            },
    {
        match self {
            GuessError::OutOfRange => String::from_str(
                "Guess is outside the range of possible numbers.",
            ),
            GuessError::NotANumber => String::from_str(
                "I don't know what that means. Please enter a number.",
            ),
        }
    }
}

/// The reply to one line of input.
#[derive(Clone, Copy, Debug, PartialEq, Eq, Structural)]
pub enum Feedback {
    Rejected(GuessError),
    TooSmall,
    TooBig,
    Correct,
    Quitting,
}

impl Feedback {
    /// The line printed for this reply; quitting prints none.
    pub fn message(self) -> (r: Option<String>)
        ensures
            match self {
                Feedback::Rejected(e) => r is Some && r->0@ == match e {
                    GuessError::OutOfRange => "Guess is outside the range of possible numbers."@,
                    GuessError::NotANumber => "I don't know what that means. Please enter a number."@,
                },
                Feedback::TooSmall => r is Some && r->0@ == "Too small!"@,
                Feedback::TooBig => r is Some && r->0@ == "Too big!"@,
                Feedback::Correct => r is Some && r->0@ == "You win!"@,
                Feedback::Quitting => r is None,
            },
    {
        match self {
            Feedback::Rejected(e) => Some(e.message()),
            Feedback::TooSmall => Some(String::from_str("Too small!")),
            Feedback::TooBig => Some(String::from_str("Too big!")),
            Feedback::Correct => Some(String::from_str("You win!")),
            Feedback::Quitting => None,
        }
    }
}

/// Where a session stands.
#[derive(Clone, Copy, Debug, PartialEq, Eq, Structural)]
pub enum Status {
    /// Guesses remain: this many.
    Playing(u32),
    Won,
    Exhausted,
    Quit,
}

impl Status {
    /// The line printed when the session ends this way: only running out of
    /// guesses has one.
    pub fn closing_message(self) -> (r: Option<String>)
        ensures
            self is Exhausted ==> r is Some && r->0@ == "Game Over!"@,
            !(self is Exhausted) ==> r is None,
    {
        match self {
            Status::Exhausted => Some(String::from_str("Game Over!")),
            _ => None,
        }
    }

    /// A finished game offers another; quitting ends the program instead.
    pub fn offers_replay(self) -> (r: bool)
        ensures
            r == (self is Won || self is Exhausted),
    {
        match self {
            Status::Won | Status::Exhausted => true,
            _ => false,
        }
    }
}

/// What the input `s` means as a guess when the largest secret is `max`.
pub open spec fn classify(s: Seq<char>, max: u32) -> Result<Guess, GuessError> {
    if matches_word(s, "quit"@) {
        Ok(Guess::Quit)
    } else if is_decimal(s) {
        if decimal_value(s) <= max {
            Ok(Guess::Number(decimal_value(s) as u32))
        } else {
            Err(GuessError::OutOfRange)
        }
    } else {
        Err(GuessError::NotANumber)
    }
}

/// The status of a game before its next turn.
pub open spec fn status_of(g: Game) -> Status {
    if g.guesses_left > 0 {
        Status::Playing(g.guesses_left)
    } else {
        Status::Exhausted
    }
}

/// One turn: the game after it, the reply, and the status after it.
pub open spec fn turn(g: Game, input: Seq<char>) -> (Game, Feedback, Status) {
    match classify(input, g.difficulty.max_spec()) {
        Err(e) => (g, Feedback::Rejected(e), Status::Playing(g.guesses_left)),
        Ok(Guess::Quit) => (g, Feedback::Quitting, Status::Quit),
        Ok(Guess::Number(n)) => {
            let after = Game { guesses_left: (g.guesses_left - 1) as u32, ..g };
            if n == g.secret_number {
                (after, Feedback::Correct, Status::Won)
            } else if n < g.secret_number {
                (after, Feedback::TooSmall, status_of(after))
            } else {
                (after, Feedback::TooBig, status_of(after))
            }
        },
    }
}

impl Game {
    /// The secret lies in the difficulty's range.
    pub open spec fn wf(self) -> bool {
        1 <= self.secret_number <= self.difficulty.max_spec()
    }

    /// Starts a game of the given difficulty with a freshly drawn secret.
    pub fn new(difficulty: Difficulty) -> (g: Game)
        ensures
            g.difficulty == difficulty,
            g.guesses_left == GUESS_LIMIT,
            g.wf(),
    {
        Game { difficulty, secret_number: difficulty.gen_secret_number(), guesses_left: GUESS_LIMIT }
    }

    /// Reads a line of input as a guess: "quit" in any letter case, or
    /// decimal digits that write a number no larger than the difficulty's
    /// maximum.
    pub fn allowed_guess(self, guess: &str) -> (r: Result<Guess, GuessError>)
        ensures
            r == classify(guess@, self.difficulty.max_spec()),
    {
        if matches_word_exec(guess, "quit") {
            Ok(Guess::Quit)
        } else if is_decimal_exec(guess) {
            match decimal_up_to(guess, self.difficulty.max_num()) {
                Some(n) => Ok(Guess::Number(n)),
                None => Err(GuessError::OutOfRange),
            }
        } else {
            Err(GuessError::NotANumber)
        }
    }

    /// The status before the next turn.
    pub fn status(&self) -> (r: Status)
        ensures
            r == status_of(*self),
    {
        if self.guesses_left > 0 {
            Status::Playing(self.guesses_left)
        } else {
            Status::Exhausted
        }
    }

    /// Plays one line of input while guesses remain. A number in range costs
    /// one guess; "quit" ends the session; anything else, a number above the
    /// range included, is refused and costs nothing.
    pub fn play(&mut self, input: &str) -> (r: (Feedback, Status))
        requires
            old(self).guesses_left > 0,
        ensures
            (*final(self), r.0, r.1) == turn(*old(self), input@),
    {
        match self.allowed_guess(input) {
            Err(e) => (Feedback::Rejected(e), Status::Playing(self.guesses_left)),
            Ok(Guess::Quit) => (Feedback::Quitting, Status::Quit),
            Ok(Guess::Number(n)) => {
                self.guesses_left = self.guesses_left - 1;
                if n == self.secret_number {
                    (Feedback::Correct, Status::Won)
                } else if n < self.secret_number {
                    (Feedback::TooSmall, self.status())
                } else {
                    (Feedback::TooBig, self.status())
                }
            },
        }
    }
}

/// The session after feeding `inputs` one line at a time to a game that
/// stands at `s`, until it is no longer playing.
pub open spec fn session(g: Game, s: Status, inputs: Seq<Seq<char>>) -> (Game, Status)
    decreases inputs.len(),
{
    if inputs.len() == 0 || !(s is Playing) {
        (g, s)
    } else {
        let t = turn(g, inputs[0]);
        session(t.0, t.2, inputs.drop_first())
    }
}

/// A guess that writes the secret number wins on that turn, however many
/// guesses are left.
pub proof fn lemma_secret_guess_wins(g: Game, input: Seq<char>)
    requires
        g.wf(),
        is_decimal(input),
        decimal_value(input) == g.secret_number,
    ensures
        turn(g, input).1 == Feedback::Correct,
        turn(g, input).2 == Status::Won,
{
    lemma_decimal_is_not_quit(input);
    lemma_decimal_value_nonneg(input);
}

/// Input that is not a run of digits never costs a guess.
pub proof fn lemma_non_numeric_guess_is_free(g: Game, input: Seq<char>)
    requires
        !is_decimal(input),
    ensures
        turn(g, input).0.guesses_left == g.guesses_left,
{
}

/// "quit", in any letter case, ends the session at once and not by running
/// out of guesses, whatever input would have followed.
pub proof fn lemma_quit_ends_session(g: Game, input: Seq<char>, rest: Seq<Seq<char>>)
    requires
        g.guesses_left > 0,
        matches_word(input, "quit"@),
    ensures
        turn(g, input).2 == Status::Quit,
        session(g, status_of(g), seq![input] + rest) == (g, Status::Quit),
{
    let inputs = seq![input] + rest;
    assert(inputs[0] == input);
    assert(inputs.drop_first() =~= rest);
    if rest.len() > 0 {
        assert(session(g, Status::Quit, rest) == (g, Status::Quit));
    }
}

/// Digits never read as "quit".
proof fn lemma_decimal_is_not_quit(input: Seq<char>)
    requires
        is_decimal(input),
    ensures
        !matches_word(input, "quit"@),
{
    reveal_strlit("quit");
    assert(crate::utils::is_digit(input[0]));
}

/// A game with `k` guesses left that is given `k` numbers in range, none of
/// them the secret, ends with its guesses exhausted.
pub proof fn lemma_wrong_guesses_exhaust(g: Game, inputs: Seq<Seq<char>>)
    requires
        inputs.len() == g.guesses_left,
        forall|i: int|
            0 <= i < inputs.len() ==> {
                &&& is_decimal(#[trigger] inputs[i])
                &&& decimal_value(inputs[i]) <= g.difficulty.max_spec()
                &&& decimal_value(inputs[i]) != g.secret_number
            },
    ensures
        session(g, status_of(g), inputs).1 == Status::Exhausted,
        session(g, status_of(g), inputs).0.guesses_left == 0,
    decreases inputs.len(),
{
    if inputs.len() > 0 {
        lemma_decimal_is_not_quit(inputs[0]);
        lemma_decimal_value_nonneg(inputs[0]);
        let after = turn(g, inputs[0]).0;
        assert(after.guesses_left == g.guesses_left - 1);
        assert(turn(g, inputs[0]).2 == status_of(after));
        let rest = inputs.drop_first();
        assert forall|i: int| 0 <= i < rest.len() implies {
            &&& is_decimal(#[trigger] rest[i])
            &&& decimal_value(rest[i]) <= after.difficulty.max_spec()
            &&& decimal_value(rest[i]) != after.secret_number
        } by {
            assert(rest[i] == inputs[i + 1]);
        }
        lemma_wrong_guesses_exhaust(after, rest);
    }
}

} // verus!
