//! Reading the text a player types: words up to letter case, and decimal numbers.

use vstd::prelude::*;

verus! {

/// The typed character `c` stands for the character `w` of a lowercase word:
/// it is `w` itself, or the ASCII capital of `w`.
pub open spec fn char_matches(c: char, w: char) -> bool {
    c == w || ('a' <= w && w <= 'z' && (c as int) == (w as int) - 32)
}

/// The typed text `s` is the lowercase word `word`, whatever the case of
/// its ASCII letters.
pub open spec fn matches_word(s: Seq<char>, word: Seq<char>) -> bool {
    &&& s.len() == word.len()
    &&& forall|i: int| 0 <= i < s.len() ==> char_matches(#[trigger] s[i], word[i])
}

pub open spec fn is_digit(c: char) -> bool {
    '0' <= c && c <= '9'
}

/// `s` is a non-empty run of decimal digits.
pub open spec fn is_decimal(s: Seq<char>) -> bool {
    &&& s.len() > 0
    &&& forall|i: int| 0 <= i < s.len() ==> is_digit(#[trigger] s[i])
}

pub open spec fn digit_value(c: char) -> int {
    (c as int) - ('0' as int)
}

/// The number that the decimal digits `s` write.
pub open spec fn decimal_value(s: Seq<char>) -> int
    decreases s.len(),
{
    if s.len() == 0 {
        0
    } else {
        10 * decimal_value(s.drop_last()) + digit_value(s.last())
    }
}

/// Tells whether `s` is `word` up to the case of its ASCII letters.
pub fn matches_word_exec(s: &str, word: &str) -> (r: bool)
    ensures
        r == matches_word(s@, word@),
{
    let n = s.unicode_len();
    if n != word.unicode_len() {
        return false;
    }
    let mut i: usize = 0;
    while i < n
        invariant
            n == s@.len(),
            n == word@.len(),
            i <= n,
            forall|j: int| 0 <= j < i ==> char_matches(#[trigger] s@[j], word@[j]),
        decreases n - i,
    {
        let c = s.get_char(i);
        let w = word.get_char(i);
        let same = c == w || ('a' <= w && w <= 'z' && c as u32 == (w as u32) - 32);
        if !same {
            return false;
        }
        i += 1;
    }
    true
}

/// Tells whether `s` is a non-empty run of decimal digits.
pub fn is_decimal_exec(s: &str) -> (r: bool)
    ensures
        r == is_decimal(s@),
{
    let n = s.unicode_len();
    if n == 0 {
        return false;
    }
    let mut i: usize = 0;
    while i < n
        invariant
            n == s@.len(),
            i <= n,
            forall|j: int| 0 <= j < i ==> is_digit(#[trigger] s@[j]),
        decreases n - i,
    {
        let c = s.get_char(i);
        if !('0' <= c && c <= '9') {
            return false;
        }
        i += 1;
    }
    true
}

/// Digits write a number no less than zero.
pub proof fn lemma_decimal_value_nonneg(s: Seq<char>)
    requires
        forall|i: int| 0 <= i < s.len() ==> is_digit(#[trigger] s[i]),
    ensures
        decimal_value(s) >= 0,
    decreases s.len(),
{
    if s.len() > 0 {
        lemma_decimal_value_nonneg(s.drop_last());
    }
}

/// Reads the digits `s` as a number, when that number is at most `bound`.
pub fn decimal_up_to(s: &str, bound: u32) -> (r: Option<u32>)
    requires
        is_decimal(s@),
    ensures
        decimal_value(s@) <= bound ==> r == Some(decimal_value(s@) as u32),
        decimal_value(s@) > bound ==> r is None,
{
    let n = s.unicode_len();
    let mut acc: u32 = 0;
    let mut over = false;
    let mut i: usize = 0;
    while i < n
        invariant
            n == s@.len(),
            is_decimal(s@),
            i <= n,
            !over ==> acc == decimal_value(s@.take(i as int)) && acc <= bound,
            over ==> decimal_value(s@.take(i as int)) > bound,
        decreases n - i,
    {
        let c = s.get_char(i);
        let ghost prefix = s@.take(i as int);
        let ghost next = s@.take(i + 1);
        assert(next.drop_last() =~= prefix);
        assert(next.last() == c);
        proof {
            lemma_decimal_value_nonneg(prefix);
        }
        if !over {
            let v: u64 = 10 * (acc as u64) + ((c as u32) - ('0' as u32)) as u64;
            if v > bound as u64 {
                over = true;
            } else {
                acc = v as u32;
            }
        }
        i += 1;
    }
    assert(s@.take(n as int) =~= s@);
    if over {
        None
    } else {
        Some(acc)
    }
}

} // verus!
