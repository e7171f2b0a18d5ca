//! Text: comparison, decimal numbers and names.

use vstd::prelude::*;
use vstd::string::*;

verus! {

/// Whether `text` reads `word`.
pub fn text_is(text: &String, word: &str) -> (r: bool)
    ensures
        r == (text@ == word@),
{
    *text == word.to_owned()
}

/// The digit `d`.
pub open spec fn digit(d: int) -> char {
    ('0' as int + d) as char
}

/// The decimal digits of `n`.
pub open spec fn numeral(n: nat) -> Seq<char>
    decreases n,
{
    if n < 10 {
        seq![digit(n as int)]
    } else {
        numeral(n / 10).push(digit((n % 10) as int))
    }
}

fn digit_text(d: u64) -> (r: &'static str)
    requires
        d < 10,
    ensures
        r@ == seq![digit(d as int)],
{
    proof {
        reveal_strlit("0");
        reveal_strlit("1");
        reveal_strlit("2");
        reveal_strlit("3");
        reveal_strlit("4");
        reveal_strlit("5");
        reveal_strlit("6");
        reveal_strlit("7");
        reveal_strlit("8");
        reveal_strlit("9");
    }
    let r: &'static str = match d {
        0 => "0",
        1 => "1",
        2 => "2",
        3 => "3",
        4 => "4",
        5 => "5",
        6 => "6",
        7 => "7",
        8 => "8",
        _ => "9",
    };
    assert(r@ =~= seq![digit(d as int)]);
    r
}

/// The decimal digits of a number.
pub fn number_text(n: u64) -> (r: String)
    ensures
        r@ == numeral(n as nat),
    decreases n,
{
    if n < 10 {
        let r = digit_text(n).to_owned();
        assert(r@ =~= numeral(n as nat));
        r
    } else {
        let mut r = number_text(n / 10);
        r.append(digit_text(n % 10));
        assert(r@ =~= numeral(n as nat));
        r
    }
}

/// The text begins with `prefix`.
pub open spec fn begins(text: Seq<char>, prefix: Seq<char>) -> bool {
    prefix.len() <= text.len() && text.subrange(0, prefix.len() as int) == prefix
}

/// The text ends with `suffix`.
pub open spec fn ends(text: Seq<char>, suffix: Seq<char>) -> bool {
    suffix.len() <= text.len() && text.subrange(text.len() - suffix.len(), text.len() as int)
        == suffix
}

/// The text from position `at` on reads `word`.
fn reads_at(text: &str, at: usize, word: &str) -> (r: bool)
    requires
        at + word@.len() <= text@.len(),
    ensures
        r == (text@.subrange(at as int, at + word@.len()) == word@),
{
    let size: usize = word.unicode_len();
    let length: usize = text.unicode_len();
    let mut i: usize = 0;
    while i < size
        invariant
            0 <= i <= size,
            size == word@.len(),
            length == text@.len(),
            at + size <= length,
            text@.subrange(at as int, at + i) == word@.take(i as int),
        decreases size - i,
    {
        if text.get_char(at + i) != word.get_char(i) {
            proof {
                assert(text@.subrange(at as int, at + word@.len())[i as int] == text@[at + i]);
            }
            return false;
        }
        proof {
            assert(text@.subrange(at as int, at + i + 1) =~= text@.subrange(
                at as int,
                at + i,
            ).push(text@[at + i]));
            assert(word@.take(i as int + 1) =~= word@.take(i as int).push(word@[i as int]));
        }
        i += 1;
    }
    assert(word@.take(i as int) =~= word@);
    true
}

/// The text is `prefix`, anything, and `suffix`.
pub open spec fn framed(text: Seq<char>, prefix: Seq<char>, suffix: Seq<char>) -> bool {
    prefix.len() + suffix.len() <= text.len() && begins(text, prefix) && ends(text, suffix)
}

/// Whether the text is `prefix`, anything, and `suffix`.
pub fn is_framed(text: &str, prefix: &str, suffix: &str) -> (r: bool)
    ensures
        r == framed(text@, prefix@, suffix@),
{
    let length: usize = text.unicode_len();
    let front: usize = prefix.unicode_len();
    let back: usize = suffix.unicode_len();
    if front > length || back > length - front {
        return false;
    }
    reads_at(text, 0, prefix) && reads_at(text, length - back, suffix)
}

/// The value of a digit.
pub open spec fn digit_value(c: char) -> Option<int> {
    if '0' <= c && c <= '9' {
        Some(c as int - '0' as int)
    } else {
        None
    }
}

/// The number that a run of digits stands for.
pub open spec fn digits_value(text: Seq<char>) -> Option<int>
    decreases text.len(),
{
    if text.len() == 0 {
        Some(0)
    } else {
        match (digits_value(text.drop_last()), digit_value(text.last())) {
            (Some(front), Some(d)) => Some(front * 10 + d),
            _ => None,
        }
    }
}

/// The number that a text stands for: at least one digit, perhaps after a plus
/// sign, and no more than fits.
pub open spec fn number_in(text: Seq<char>) -> Option<u64> {
    let digits = if text.len() > 0 && text[0] == '+' {
        text.subrange(1, text.len() as int)
    } else {
        text
    };
    if digits.len() == 0 {
        None
    } else {
        match digits_value(digits) {
            Some(n) => if n <= u64::MAX {
                Some(n as u64)
            } else {
                None
            },
            None => None,
        }
    }
}

proof fn lemma_digits_grow(text: Seq<char>, i: int)
    requires
        0 <= i <= text.len(),
    ensures
        digits_value(text.take(i)) is None ==> digits_value(text) is None,
        digits_value(text) matches Some(n) ==> (digits_value(text.take(i)) matches Some(m) && 0 <= m
            <= n),
    decreases text.len() - i,
{
    if i == text.len() {
        assert(text.take(i) =~= text);
        lemma_digits_positive(text);
    } else {
        lemma_digits_grow(text, i + 1);
        assert(text.take(i + 1).drop_last() =~= text.take(i));
        lemma_digits_positive(text.take(i));
    }
}

proof fn lemma_digits_positive(text: Seq<char>)
    ensures
        digits_value(text) matches Some(n) ==> 0 <= n,
    decreases text.len(),
{
    if text.len() > 0 {
        lemma_digits_positive(text.drop_last());
    }
}

fn read_digit(c: char) -> (r: Option<u64>)
    ensures
        match r {
            Some(d) => digit_value(c) == Some(d as int) && d < 10,
            None => digit_value(c) is None,
        },
{
    if '0' <= c && c <= '9' {
        Some((c as u64) - 48)
    } else {
        None
    }
}

/// The number that a text stands for.
pub fn read_number(text: &str) -> (r: Option<u64>)
    ensures
        r == number_in(text@),
{
    let length: usize = text.unicode_len();
    let first: usize = if length > 0 && text.get_char(0) == '+' {
        1
    } else {
        0
    };
    if first == length {
        return None;
    }
    let ghost digits = text@.subrange(first as int, text@.len() as int);
    assert(first == 0 ==> digits =~= text@);
    let mut value: u64 = 0;
    let mut i: usize = first;
    while i < length
        invariant
            first <= i <= length,
            first < length,
            length == text@.len(),
            first == (if text@.len() > 0 && text@[0] == '+' {
                1int
            } else {
                0
            }),
            digits == text@.subrange(first as int, text@.len() as int),
            first == 0 ==> digits == text@,
            digits_value(digits.take(i - first)) == Some(value as int),
        decreases length - i,
    {
        proof {
            let k = i - first;
            assert(digits.take(k + 1).drop_last() =~= digits.take(k));
            assert(digits.take(k + 1).last() == text@[i as int]);
            lemma_digits_grow(digits, k + 1);
        }
        match read_digit(text.get_char(i)) {
            Some(d) => {
                if value > 1844674407370955161 || value * 10 > 18446744073709551615 - d {
                    return None;
                }
                value = value * 10 + d;
            },
            None => {
                return None;
            },
        }
        i += 1;
    }
    assert(digits.take(i - first) =~= digits);
    Some(value)
}

/// What stands between a beginning and an end.
pub open spec fn between(text: Seq<char>, prefix: Seq<char>, suffix: Seq<char>) -> Seq<char> {
    text.subrange(prefix.len() as int, text.len() - suffix.len())
}

proof fn lemma_digit_value(d: int)
    requires
        0 <= d < 10,
    ensures
        digit_value(digit(d)) == Some(d),
        digit(d) != '+',
{
}

/// The digits of a number stand for it.
pub proof fn lemma_numeral_value(n: nat)
    ensures
        digits_value(numeral(n)) == Some(n as int),
        numeral(n).len() > 0,
        numeral(n)[0] != '+',
    decreases n,
{
    if n < 10 {
        lemma_digit_value(n as int);
        assert(numeral(n).drop_last() =~= Seq::empty());
        assert(digits_value(numeral(n).drop_last()) == Some(0int));
    } else {
        lemma_numeral_value(n / 10);
        lemma_digit_value((n % 10) as int);
        assert(numeral(n).drop_last() =~= numeral(n / 10));
    }
}

/// A numeral is made of digits, the last one for the remainder by ten, and reads back as
/// the number that it stands for.
pub proof fn law_numerals_read_back(n: nat)
    ensures
        numeral(n).len() > 0,
        n < 10 ==> numeral(n).len() == 1,
        n >= 10 ==> numeral(n).drop_last() == numeral(n / 10),
        digits_value(numeral(n)) == Some(n as int),
{
    lemma_numeral_value(n);
    if n >= 10 {
        assert(numeral(n).drop_last() =~= numeral(n / 10));
    }
}

} // verus!
