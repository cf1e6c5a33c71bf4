use itertools::Itertools;
use vstd::prelude::*;

verus! {

/// The character that stands for the digit `d` in decimal notation.
pub open spec fn digit_char(d: nat) -> char {
    if d == 0 {
        '0'
    } else if d == 1 {
        '1'
    } else if d == 2 {
        '2'
    } else if d == 3 {
        '3'
    } else if d == 4 {
        '4'
    } else if d == 5 {
        '5'
    } else if d == 6 {
        '6'
    } else if d == 7 {
        '7'
    } else if d == 8 {
        '8'
    } else {
        '9'
    }
}

/// The decimal notation of `n`: no sign, no leading zero but for zero itself.
pub open spec fn decimal_text(n: nat) -> Seq<char>
    decreases n,
{
    if n < 10 {
        seq![digit_char(n)]
    } else {
        decimal_text(n / 10).push(digit_char(n % 10))
    }
}

fn digit_str(d: usize) -> (s: &'static str)
    requires
        d < 10,
    ensures
        s@ == seq![digit_char(d as nat)],
{
    proof {
        reveal_strlit("0");
        reveal_strlit("1");
        reveal_strlit("2");
        reveal_strlit("3");
        reveal_strlit("4");
        reveal_strlit("5");
        reveal_strlit("6");
        reveal_strlit("7");
        reveal_strlit("8");
        reveal_strlit("9");
    }
    let s = if d == 0 {
        "0"
    } else if d == 1 {
        "1"
    } else if d == 2 {
        "2"
    } else if d == 3 {
        "3"
    } else if d == 4 {
        "4"
    } else if d == 5 {
        "5"
    } else if d == 6 {
        "6"
    } else if d == 7 {
        "7"
    } else if d == 8 {
        "8"
    } else {
        "9"
    };
    assert(s@ =~= seq![digit_char(d as nat)]);
    s
}

/// Writes `n` in decimal notation.
pub fn decimal(n: usize) -> (text: String)
    ensures
        text@ == decimal_text(n as nat),
    decreases n,
{
    if n < 10 {
        String::from_str(digit_str(n))
    } else {
        let mut text = decimal(n / 10);
        text.append(digit_str(n % 10));
        assert(text@ =~= decimal_text((n / 10) as nat).push(digit_char((n % 10) as nat)));
        text
    }
}

/// `a` followed by `b`.
pub fn concat(a: &str, b: &str) -> (text: String)
    ensures
        text@ == a@ + b@,
{
    let mut text = String::from_str(a);
    text.append(b);
    text
}

/// `a`, `b` and `c` in a row.
pub fn concat3(a: &str, b: &str, c: &str) -> (text: String)
    ensures
        text@ == a@ + b@ + c@,
{
    let mut text = String::from_str(a);
    text.append(b);
    text.append(c);
    text
}

/// Tells whether two texts hold the same characters.
pub fn same_text(a: &str, b: &str) -> (same: bool)
    ensures
        same == (a@ == b@),
{
    let a = String::from_str(a);
    let b = String::from_str(b);
    a == b
}

/// Tells whether `c` is one of the ten decimal digits.
pub open spec fn is_digit(c: char) -> bool {
    '0' <= c && c <= '9'
}

/// The number that the decimal digit `c` stands for.
pub open spec fn digit_value(c: char) -> nat {
    (c as int - '0' as int) as nat
}

/// The number that a row of decimal digits denotes; zero for the empty row.
pub open spec fn digits_value(digits: Seq<char>) -> nat
    decreases digits.len(),
{
    if digits.len() == 0 {
        0
    } else {
        digits_value(digits.drop_last()) * 10 + digit_value(digits.last())
    }
}

/// Tells whether every character of `text` is a decimal digit.
pub open spec fn all_digits(text: Seq<char>) -> bool {
    forall|i: int| 0 <= i < text.len() ==> is_digit(#[trigger] text[i])
}

/// `text` without the one plus sign that may lead it.
pub open spec fn unsigned_part(text: Seq<char>) -> Seq<char> {
    if text.len() > 0 && text[0] == '+' {
        text.drop_first()
    } else {
        text
    }
}

/// The number of seconds that `text` denotes: an optional plus sign, then one
/// decimal digit or more, the whole no greater than `u64::MAX`.  Anything
/// else denotes nothing.
pub open spec fn parse_decimal(text: Seq<char>) -> Option<u64> {
    let digits = unsigned_part(text);
    if digits.len() > 0 && all_digits(digits) && digits_value(digits) <= u64::MAX {
        Some(digits_value(digits) as u64)
    } else {
        None
    }
}

/// A row of digits denotes at least what any of its beginnings denotes.
proof fn lemma_digits_value_grows(digits: Seq<char>, k: int)
    requires
        all_digits(digits),
        0 <= k <= digits.len(),
    ensures
        digits_value(digits.take(k)) <= digits_value(digits),
    decreases digits.len(),
{
    if k == digits.len() {
        assert(digits.take(k) =~= digits);
    } else {
        let shorter = digits.drop_last();
        assert(is_digit(digits[digits.len() - 1]));
        assert forall|i: int| 0 <= i < shorter.len() implies is_digit(#[trigger] shorter[i]) by {
            assert(shorter[i] == digits[i]);
        }
        lemma_digits_value_grows(shorter, k);
        assert(shorter.take(k) =~= digits.take(k));
    }
}

spec fn sign_len(signed: bool) -> int {
    if signed {
        1
    } else {
        0
    }
}

/// Reads a number of seconds from `text`.
pub fn parse_seconds(text: &str) -> (parsed: Option<u64>)
    ensures
        parsed == parse_decimal(text@),
{
    let mut value: u64 = 0;
    let mut seen: bool = false;
    let mut first: bool = true;
    let mut signed: bool = false;
    for c in it: text.chars()
        invariant
            it.seq() == text@,
            first == (it.index() == 0),
            signed == (it.index() > 0 && text@[0] == '+'),
            seen == (it.index() > sign_len(signed)),
            forall|j: int| sign_len(signed) <= j < it.index() ==> is_digit(#[trigger] text@[j]),
            value == digits_value(text@.subrange(sign_len(signed), it.index() as int)),
    {
        let ghost i = it.index() as int;
        let ghost digits = unsigned_part(text@);
        assert(c == text@[i]);
        if first && c == '+' {
            signed = true;
            first = false;
            assert(text@.subrange(1, 1) =~= Seq::<char>::empty());
        } else {
            first = false;
            let ghost start = sign_len(signed);
            assert(digits =~= text@.subrange(start, text@.len() as int));
            if !('0' <= c && c <= '9') {
                assert(digits[i - start] == c);
                return None;
            }
            let d: u64 = ((c as u32) - ('0' as u32)) as u64;
            if value > (u64::MAX - d) / 10 {
                proof {
                    let longer = text@.subrange(start, i + 1);
                    assert(longer.drop_last() =~= text@.subrange(start, i));
                    assert(longer.last() == c);
                    assert(digits_value(longer) > u64::MAX);
                    if all_digits(digits) {
                        lemma_digits_value_grows(digits, i + 1 - start);
                        assert(digits.take(i + 1 - start) =~= longer);
                    }
                }
                return None;
            }
            proof {
                let longer = text@.subrange(start, i + 1);
                assert(longer.drop_last() =~= text@.subrange(start, i));
                assert(longer.last() == c);
            }
            value = value * 10 + d;
            seen = true;
        }
    }
    proof {
        let start = sign_len(signed);
        let digits = unsigned_part(text@);
        assert(digits =~= text@.subrange(start, text@.len() as int));
        assert forall|j: int| 0 <= j < digits.len() implies is_digit(#[trigger] digits[j]) by {
            assert(digits[j] == text@[j + start]);
        }
    }
    if seen {
        Some(value)
    } else {
        None
    }
}

/// The items in a row, with `sep` between each two neighbours.
pub open spec fn joined(items: Seq<Seq<char>>, sep: Seq<char>) -> Seq<char>
    decreases items.len(),
{
    if items.len() == 0 {
        Seq::empty()
    } else if items.len() == 1 {
        items[0]
    } else {
        joined(items.drop_last(), sep) + sep + items.last()
    }
}

/// What each of the strings holds.
pub open spec fn texts(items: Seq<String>) -> Seq<Seq<char>> {
    items.map_values(|item: String| item@)
}

/// `Itertools::join` over the strings of `items`.
///
/// Believed, not proved: the result is empty for no item; otherwise it is the
/// first item, then for each later item `sep` and that item, in order.
#[verifier::external_body]
pub(crate) fn join(items: &Vec<String>, sep: &str) -> (text: String)
    ensures
        text@ == joined(texts(items@), sep@),
{
    items.iter().join(sep)
}

} // verus!
