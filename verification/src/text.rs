//! Small text utilities: comparing, searching and printing numbers.

use vstd::prelude::*;
use vstd::string::*;

verus! {

/// Calls `str::eq`: two string slices are equal when they hold the same
/// characters.
#[verifier::external_body]
pub(crate) fn str_eq(left: &str, right: &str) -> (same: bool)
    ensures
        same == (left@ == right@),
{
    left == right
}

/// Calls `str::starts_with` with a string pattern: the pattern matches when
/// its characters are the first characters of `text`.
#[verifier::external_body]
pub(crate) fn str_starts_with(text: &str, prefix: &str) -> (starts: bool)
    ensures
        starts == prefix@.is_prefix_of(text@),
{
    text.starts_with(prefix)
}

/// Index of the first occurrence of `mark` in `text`, or the length of
/// `text` where `mark` does not occur.
pub open spec fn position(text: Seq<char>, mark: char) -> int
    decreases text.len(),
{
    if text.len() == 0 {
        0
    } else if text[0] == mark {
        0
    } else {
        1 + position(text.drop_first(), mark)
    }
}

/// An index at or before the end of the text, with no mark before it and the
/// mark at it unless it is the end, is `position`.
pub proof fn lemma_position_is(text: Seq<char>, mark: char, at: int)
    requires
        0 <= at <= text.len(),
        forall|j: int| 0 <= j < at ==> text[j] != mark,
        at < text.len() ==> text[at] == mark,
    ensures
        position(text, mark) == at,
    decreases text.len(),
{
    if text.len() != 0 && text[0] != mark {
        let rest = text.drop_first();
        assert forall|j: int| 0 <= j < at - 1 implies rest[j] != mark by {
            assert(rest[j] == text[j + 1]);
        }
        if at - 1 < rest.len() {
            assert(rest[at - 1] == text[at]);
        }
        lemma_position_is(rest, mark, at - 1);
    }
}

/// Finds the first occurrence of `mark` in the part of `text` that starts at
/// the character index `from`. The result is an index into `text`; it is the
/// length of `text` where the mark does not occur there.
pub fn find_from(text: &str, from: usize, mark: char) -> (at: usize)
    requires
        from <= text@.len(),
    ensures
        at == from + position(text@.subrange(from as int, text@.len() as int), mark),
        from <= at <= text@.len(),
{
    let total = text.unicode_len();
    let mut at: usize = from;
    let ghost tail = text@.subrange(from as int, text@.len() as int);
    while at < total && text.get_char(at) != mark
        invariant
            from <= at <= total,
            total == text@.len(),
            tail == text@.subrange(from as int, text@.len() as int),
            forall|j: int| 0 <= j < at - from ==> tail[j] != mark,
        decreases total - at,
    {
        at += 1;
    }
    proof {
        lemma_position_is(tail, mark, at - from);
    }
    at
}

/// The character that prints the digit `d`.
pub open spec fn digit(d: int) -> char {
    if d == 0 {
        '0'
    } else if d == 1 {
        '1'
    } else if d == 2 {
        '2'
    } else if d == 3 {
        '3'
    } else if d == 4 {
        '4'
    } else if d == 5 {
        '5'
    } else if d == 6 {
        '6'
    } else if d == 7 {
        '7'
    } else if d == 8 {
        '8'
    } else {
        '9'
    }
}

/// Decimal notation of `n`, without leading zeros.
pub open spec fn decimal(n: nat) -> Seq<char>
    decreases n,
{
    if n < 10 {
        seq![digit(n as int)]
    } else {
        decimal(n / 10).push(digit((n % 10) as int))
    }
}

/// Decimal notation of a signed number: a minus sign before the magnitude of
/// a negative one.
pub open spec fn signed_decimal(n: int) -> Seq<char> {
    if n < 0 {
        seq!['-'] + decimal((-n) as nat)
    } else {
        decimal(n as nat)
    }
}

/// The digits of `n` that stand before those already written, none for 0.
spec fn leading(n: nat) -> Seq<char> {
    if n == 0 {
        Seq::empty()
    } else {
        decimal(n)
    }
}

proof fn lemma_leading(n: nat)
    ensures
        n > 0 ==> leading(n) == leading(n / 10) + seq![digit((n % 10) as int)],
        decimal(n) == leading(n / 10) + seq![digit((n % 10) as int)],
{
    if n < 10 {
        assert(leading(n / 10) + seq![digit((n % 10) as int)] =~= seq![digit(n as int)]);
    } else {
        assert(decimal(n / 10).push(digit((n % 10) as int)) =~= decimal(n / 10) + seq![
            digit((n % 10) as int),
        ]);
    }
}

fn digit_text(d: u64) -> (text: &'static str)
    requires
        d < 10,
    ensures
        text@ == seq![digit(d as int)],
{
    proof {
        reveal_strlit("0");
        reveal_strlit("1");
        reveal_strlit("2");
        reveal_strlit("3");
        reveal_strlit("4");
        reveal_strlit("5");
        reveal_strlit("6");
        reveal_strlit("7");
        reveal_strlit("8");
        reveal_strlit("9");
    }
    let text = if d == 0 {
        "0"
    } else if d == 1 {
        "1"
    } else if d == 2 {
        "2"
    } else if d == 3 {
        "3"
    } else if d == 4 {
        "4"
    } else if d == 5 {
        "5"
    } else if d == 6 {
        "6"
    } else if d == 7 {
        "7"
    } else if d == 8 {
        "8"
    } else {
        "9"
    };
    assert(text@ =~= seq![digit(d as int)]);
    text
}

/// Prints `n` in decimal notation.
pub fn decimal_text(n: u64) -> (text: String)
    ensures
        text@ == decimal(n as nat),
{
    let mut text = String::from_str(digit_text(n % 10));
    let mut rest: u64 = n / 10;
    proof {
        lemma_leading(n as nat);
    }
    while rest > 0
        invariant
            decimal(n as nat) == leading(rest as nat) + text@,
        decreases rest,
    {
        proof {
            lemma_leading(rest as nat);
        }
        let ghost before = text@;
        text = String::from_str(digit_text(rest % 10)).concat(text.as_str());
        assert(leading(rest as nat) + before =~= leading((rest / 10) as nat) + text@);
        rest = rest / 10;
    }
    assert(leading(0) + text@ =~= text@);
    text
}

/// Prints `n` in decimal notation, with a minus sign where it is negative.
pub fn signed_decimal_text(n: i64) -> (text: String)
    ensures
        text@ == signed_decimal(n as int),
{
    if n < 0 {
        let magnitude: u64 = (-(n + 1)) as u64 + 1;
        proof {
            reveal_strlit("-");
        }
        let text = String::from_str("-").concat(decimal_text(magnitude).as_str());
        assert(text@ =~= seq!['-'] + decimal((-n) as nat));
        text
    } else {
        decimal_text(n as u64)
    }
}

} // verus!
