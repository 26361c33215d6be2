//! Texts: comparing them, and writing numbers and moves as text.

use vstd::prelude::*;
use vstd::string::StringExecFns;
use crate::msg::GameMove;

verus! {

/// The views of a list of texts.
pub open spec fn text_views(texts: Seq<String>) -> Seq<Seq<char>> {
    texts.map_values(|t: String| t@)
}

/// Whether two texts are the same.
pub fn same_text(a: &str, b: &str) -> (same: bool)
    ensures
        same == (a@ == b@),
{
    let left = a.to_owned();
    let right = b.to_owned();
    left == right
}

/// Whether `text` is one of `list`.
pub fn holds_text(list: &Vec<String>, text: &str) -> (found: bool)
    ensures
        found == text_views(list@).contains(text@),
{
    let mut i: usize = 0;
    while i < list.len()
        invariant
            i <= list.len(),
            forall|k: int| 0 <= k < i ==> text_views(list@)[k] != text@,
        decreases list.len() - i,
    {
        if same_text(list[i].as_str(), text) {
            assert(text_views(list@)[i as int] == text@);
            return true;
        }
        i = i + 1;
    }
    false
}

/// The character that stands for a digit.
pub open spec fn digit_char(d: int) -> char {
    if d == 0 {
        '0'
    } else if d == 1 {
        '1'
    } else if d == 2 {
        '2'
    } else if d == 3 {
        '3'
    } else if d == 4 {
        '4'
    } else if d == 5 {
        '5'
    } else if d == 6 {
        '6'
    } else if d == 7 {
        '7'
    } else if d == 8 {
        '8'
    } else {
        '9'
    }
}

/// The decimal digits of a number that is not negative, without leading zeros.
pub open spec fn digits_of(n: int) -> Seq<char>
    decreases n,
{
    if n < 10 {
        seq![digit_char(n)]
    } else {
        digits_of(n / 10).push(digit_char(n % 10))
    }
}

/// A number in decimal, with a minus sign before it where it is negative.
pub open spec fn decimal_text(n: int) -> Seq<char> {
    if n < 0 {
        seq!['-'] + digits_of(-n)
    } else {
        digits_of(n)
    }
}

/// The text of one digit.
fn digit_text(d: u32) -> (text: &'static str)
    requires
        d < 10,
    ensures
        text@ == seq![digit_char(d as int)],
{
    proof {
        reveal_strlit("0");
        reveal_strlit("1");
        reveal_strlit("2");
        reveal_strlit("3");
        reveal_strlit("4");
        reveal_strlit("5");
        reveal_strlit("6");
        reveal_strlit("7");
        reveal_strlit("8");
        reveal_strlit("9");
    }
    let text = if d == 0 {
        "0"
    } else if d == 1 {
        "1"
    } else if d == 2 {
        "2"
    } else if d == 3 {
        "3"
    } else if d == 4 {
        "4"
    } else if d == 5 {
        "5"
    } else if d == 6 {
        "6"
    } else if d == 7 {
        "7"
    } else if d == 8 {
        "8"
    } else {
        "9"
    };
    assert(text@ =~= seq![digit_char(d as int)]);
    text
}

/// Appends the decimal digits of `n` to `text`.
fn push_digits(text: &mut String, n: u32)
    ensures
        final(text)@ == old(text)@ + digits_of(n as int),
    decreases n,
{
    if n < 10 {
        text.append(digit_text(n));
    } else {
        push_digits(text, n / 10);
        text.append(digit_text(n % 10));
        assert(old(text)@ + digits_of((n / 10) as int) + seq![digit_char((n % 10) as int)]
            =~= old(text)@ + digits_of(n as int));
    }
}

/// A number in decimal.
pub fn decimal(n: i32) -> (text: String)
    ensures
        text@ == decimal_text(n as int),
{
    let mut text = String::new();
    if n < 0 {
        proof {
            reveal_strlit("-");
        }
        text.append("-");
        let magnitude: u32 = (-(n as i64)) as u32;
        push_digits(&mut text, magnitude);
        assert(text@ =~= seq!['-'] + digits_of(-(n as int)));
    } else {
        push_digits(&mut text, n as u32);
        assert(text@ =~= digits_of(n as int));
    }
    text
}

/// The word by which a response names a move.
pub open spec fn move_name(m: GameMove) -> Seq<char> {
    match m {
        GameMove::Rock => "rock"@,
        GameMove::Paper => "paper"@,
        GameMove::Scissors => "scissors"@,
    }
}

impl GameMove {
    /// The word by which a response names this move.
    pub fn name(self) -> (text: &'static str)
        ensures
            text@ == move_name(self),
    {
        match self {
            GameMove::Rock => "rock",
            GameMove::Paper => "paper",
            GameMove::Scissors => "scissors",
        }
    }
}

} // verus!
