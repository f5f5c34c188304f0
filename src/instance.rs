//! The decisions of the session that runs one game after another.

use crate::utils::{matches_word, matches_word_exec};
use vstd::prelude::*;

verus! {

/// What an answer to "Play again?" says: "y" or "yes" to play on, "n" or
/// "no" to stop, in any letter case; anything else is no answer.
pub open spec fn answer_of(s: Seq<char>) -> Option<bool> {
    if matches_word(s, "y"@) || matches_word(s, "yes"@) {
        Some(true)
    } else if matches_word(s, "n"@) || matches_word(s, "no"@) {
        Some(false)
    } else {
        None
    }
}

/// Reads the answer to "Play again?"; `None` asks for the question again.
pub fn play_again(answer: &str) -> (r: Option<bool>)
    ensures
        r == answer_of(answer@),
{
    if matches_word_exec(answer, "y") || matches_word_exec(answer, "yes") {
        Some(true)
    } else if matches_word_exec(answer, "n") || matches_word_exec(answer, "no") {
        Some(false)
    } else {
        None
    }
}

} // verus!
