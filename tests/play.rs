use guessing_game::game::{
    get_difficulty, Difficulty, Feedback, Game, Guess, GuessError, Status, GUESS_LIMIT,
};
use guessing_game::instance::play_again;

fn game(difficulty: Difficulty, secret_number: u32, guesses_left: u32) -> Game {
    Game { difficulty, secret_number, guesses_left }
}

fn text(feedback: Feedback) -> String {
    feedback.message().expect("this reply prints a line")
}

#[test]
fn easy_game_with_secret_seven_is_won_on_third_guess() {
    let mut g = game(Difficulty::Easy, 7, GUESS_LIMIT);
    let (f, s) = g.play("3");
    assert_eq!(text(f), "Too small!");
    assert_eq!(s, Status::Playing(9));
    let (f, s) = g.play("9");
    assert_eq!(text(f), "Too big!");
    assert_eq!(s, Status::Playing(8));
    let (f, s) = g.play("7");
    assert_eq!(text(f), "You win!");
    assert_eq!(s, Status::Won);
    assert_eq!(s.closing_message(), None);
}

#[test]
fn ten_wrong_guesses_end_in_game_over() {
    let mut g = game(Difficulty::Medium, 42, 10);
    let guesses = ["1", "2", "3", "4", "5", "6", "7", "8", "9", "10"];
    let mut status = g.status();
    for (i, guess) in guesses.iter().enumerate() {
        assert_eq!(status, Status::Playing(10 - i as u32));
        let (f, s) = g.play(guess);
        assert_eq!(f, Feedback::TooSmall);
        status = s;
    }
    assert_eq!(status, Status::Exhausted);
    assert_eq!(g.guesses_left, 0);
    assert_eq!(status.closing_message().as_deref(), Some("Game Over!"));
}

#[test]
fn wrong_guesses_above_and_below_exhaust_a_short_game() {
    let mut g = game(Difficulty::Hard, 50, 3);
    assert_eq!(g.play("100"), (Feedback::TooBig, Status::Playing(2)));
    assert_eq!(g.play("0"), (Feedback::TooSmall, Status::Playing(1)));
    assert_eq!(g.play("49"), (Feedback::TooSmall, Status::Exhausted));
}

#[test]
fn secret_numbers_stay_in_range() {
    for d in [Difficulty::Easy, Difficulty::Medium, Difficulty::Hard] {
        for _ in 0..2000 {
            let n = d.gen_secret_number();
            assert!(1 <= n && n <= d.max_num());
        }
    }
}

#[test]
fn secret_numbers_vary() {
    let first = Difficulty::Hard.gen_secret_number();
    let mut seen_other = false;
    for _ in 0..2000 {
        if Difficulty::Hard.gen_secret_number() != first {
            seen_other = true;
        }
    }
    assert!(seen_other);
}

#[test]
fn new_game_starts_with_full_guesses() {
    for d in [Difficulty::Easy, Difficulty::Medium, Difficulty::Hard] {
        let g = Game::new(d);
        assert_eq!(g.difficulty, d);
        assert_eq!(g.guesses_left, 10);
        assert!(1 <= g.secret_number && g.secret_number <= d.max_num());
        assert_eq!(g.status(), Status::Playing(10));
    }
}

#[test]
fn secret_guess_wins_whatever_is_left() {
    for left in [1, 2, 10] {
        let mut g = game(Difficulty::Medium, 42, left);
        assert_eq!(g.play("42"), (Feedback::Correct, Status::Won));
    }
    let mut g = game(Difficulty::Easy, 10, 1);
    assert_eq!(g.play("010"), (Feedback::Correct, Status::Won));
}

#[test]
fn non_numeric_guesses_cost_nothing() {
    let mut g = game(Difficulty::Easy, 7, 4);
    for input in ["abc", "", "-3", "3.5", " 5", "12a", "\u{663}"] {
        let (f, s) = g.play(input);
        assert_eq!(f, Feedback::Rejected(GuessError::NotANumber));
        assert_eq!(s, Status::Playing(4));
        assert_eq!(g.guesses_left, 4);
    }
}

#[test]
fn out_of_range_guesses_cost_nothing() {
    let mut g = game(Difficulty::Easy, 7, 4);
    for input in ["11", "50", "99999999999999999999"] {
        let (f, s) = g.play(input);
        assert_eq!(f, Feedback::Rejected(GuessError::OutOfRange));
        assert_eq!(s, Status::Playing(4));
    }
    assert_eq!(g.guesses_left, 4);
}

#[test]
fn quit_in_any_case_ends_without_game_over() {
    for input in ["quit", "QUIT", "Quit", "qUiT"] {
        let mut g = game(Difficulty::Easy, 7, 1);
        let (f, s) = g.play(input);
        assert_eq!(f, Feedback::Quitting);
        assert_eq!(f.message(), None);
        assert_eq!(s, Status::Quit);
        assert_eq!(s.closing_message(), None);
        assert!(!s.offers_replay());
        assert_eq!(g.guesses_left, 1);
    }
    let mut g = game(Difficulty::Easy, 7, 1);
    assert_eq!(g.play("quits").1, Status::Playing(1));
}

#[test]
fn max_num_per_difficulty() {
    assert_eq!(Difficulty::Easy.max_num(), 10);
    assert_eq!(Difficulty::Medium.max_num(), 50);
    assert_eq!(Difficulty::Hard.max_num(), 100);
}

#[test]
fn difficulty_names() {
    assert_eq!(Difficulty::Easy.name(), "Easy");
    assert_eq!(Difficulty::Medium.name(), "Medium");
    assert_eq!(Difficulty::Hard.name(), "Hard");
}

#[test]
fn difficulty_choice_defaults_to_easy() {
    assert_eq!(get_difficulty("1"), Difficulty::Easy);
    assert_eq!(get_difficulty("2"), Difficulty::Medium);
    assert_eq!(get_difficulty("3"), Difficulty::Hard);
    assert_eq!(get_difficulty("4"), Difficulty::Easy);
    assert_eq!(get_difficulty(""), Difficulty::Easy);
    assert_eq!(get_difficulty("hard"), Difficulty::Easy);
    assert_eq!(get_difficulty("22"), Difficulty::Easy);
}

#[test]
fn allowed_guess_reads_numbers_and_quit() {
    let g = game(Difficulty::Easy, 7, 10);
    assert_eq!(g.allowed_guess("10"), Ok(Guess::Number(10)));
    assert_eq!(g.allowed_guess("0"), Ok(Guess::Number(0)));
    assert_eq!(g.allowed_guess("007"), Ok(Guess::Number(7)));
    assert_eq!(g.allowed_guess("11"), Err(GuessError::OutOfRange));
    assert_eq!(g.allowed_guess("4294967296"), Err(GuessError::OutOfRange));
    assert_eq!(g.allowed_guess("QUIT"), Ok(Guess::Quit));
    assert_eq!(g.allowed_guess("seven"), Err(GuessError::NotANumber));
    let hard = game(Difficulty::Hard, 7, 10);
    assert_eq!(hard.allowed_guess("100"), Ok(Guess::Number(100)));
    assert_eq!(hard.allowed_guess("101"), Err(GuessError::OutOfRange));
}

#[test]
fn reply_texts() {
    assert_eq!(
        text(Feedback::Rejected(GuessError::OutOfRange)),
        "Guess is outside the range of possible numbers."
    );
    assert_eq!(
        text(Feedback::Rejected(GuessError::NotANumber)),
        "I don't know what that means. Please enter a number."
    );
    assert_eq!(
        GuessError::NotANumber.message(),
        "I don't know what that means. Please enter a number."
    );
    assert_eq!(text(Feedback::TooSmall), "Too small!");
    assert_eq!(text(Feedback::TooBig), "Too big!");
    assert_eq!(text(Feedback::Correct), "You win!");
}

#[test]
fn status_endings() {
    assert_eq!(Status::Exhausted.closing_message().as_deref(), Some("Game Over!"));
    assert_eq!(Status::Won.closing_message(), None);
    assert_eq!(Status::Playing(3).closing_message(), None);
    assert!(Status::Won.offers_replay());
    assert!(Status::Exhausted.offers_replay());
    assert!(!Status::Playing(3).offers_replay());
    assert_eq!(game(Difficulty::Easy, 7, 0).status(), Status::Exhausted);
}

#[test]
fn play_again_answers() {
    for yes in ["y", "Y", "yes", "YES", "Yes"] {
        assert_eq!(play_again(yes), Some(true));
    }
    for no in ["n", "N", "no", "NO", "nO"] {
        assert_eq!(play_again(no), Some(false));
    }
    for other in ["", "maybe", "ye", "nope", "1"] {
        assert_eq!(play_again(other), None);
    }
}
