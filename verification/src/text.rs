//! Plain text: texts compared, lines freed of their surrounding blanks, and decimal numbers
//! written and read.

use vstd::prelude::*;
use vstd::std_specs::iter::IteratorSpec;

verus! {

/// Whether two texts hold the same characters.
pub fn same_text(a: &str, b: &str) -> (same: bool)
    ensures
        same == (a@ == b@),
{
    broadcast use vstd::string::group_string_axioms;

    let mut rest = b.chars();
    for c in it: a.chars()
        invariant
            it.seq() == a@,
            it.index() <= b@.len(),
            rest.remaining() == b@.skip(it.index()),
            a@.take(it.index()) == b@.take(it.index()),
    {
        let ghost k = it.index();
        match rest.next() {
            Some(d) => {
                assert(d == b@[k]);
                if c != d {
                    return false;
                }
                assert(a@.take(k + 1) =~= a@.take(k).push(c));
                assert(b@.take(k + 1) =~= b@.take(k).push(d));
                assert(b@.skip(k).drop_first() =~= b@.skip(k + 1));
            },
            None => {
                return false;
            },
        }
    }
    assert(a@.take(a@.len() as int) =~= a@);
    let end = rest.next();
    proof {
        if end is None {
            assert(b@.take(a@.len() as int) =~= b@);
        }
    }
    end.is_none()
}

/// Whether `c` is white space, as Unicode lists it.
pub open spec fn is_blank(c: char) -> bool {
    ||| '\u{9}' <= c && c <= '\u{d}'
    ||| c == ' '
    ||| c == '\u{85}'
    ||| c == '\u{a0}'
    ||| c == '\u{1680}'
    ||| '\u{2000}' <= c && c <= '\u{200a}'
    ||| c == '\u{2028}'
    ||| c == '\u{2029}'
    ||| c == '\u{202f}'
    ||| c == '\u{205f}'
    ||| c == '\u{3000}'
}

/// `text` without the white space that leads it and the white space that ends it.
pub open spec fn trimmed(text: Seq<char>) -> Seq<char>
    decreases text.len(),
{
    if text.len() > 0 && is_blank(text[0]) {
        trimmed(text.drop_first())
    } else if text.len() > 0 && is_blank(text.last()) {
        trimmed(text.drop_last())
    } else {
        text
    }
}

/// Nothing is left of a text that is white space throughout.
proof fn lemma_trimmed_blank(text: Seq<char>)
    requires
        forall|i: int| 0 <= i < text.len() ==> is_blank(#[trigger] text[i]),
    ensures
        trimmed(text) == Seq::<char>::empty(),
    decreases text.len(),
{
    if text.len() > 0 {
        lemma_trimmed_blank(text.drop_first());
    }
}

/// What is left of a text reaches from its first character that is no white space to its last.
proof fn lemma_trimmed_span(text: Seq<char>, from: int, to: int)
    requires
        0 <= from < to <= text.len(),
        !is_blank(text[from]),
        !is_blank(text[to - 1]),
        forall|i: int| 0 <= i < from ==> is_blank(#[trigger] text[i]),
        forall|i: int| to <= i < text.len() ==> is_blank(#[trigger] text[i]),
    ensures
        trimmed(text) == text.subrange(from, to),
    decreases text.len(),
{
    if from > 0 {
        let rest = text.drop_first();
        assert forall|i: int| to - 1 <= i < rest.len() implies is_blank(#[trigger] rest[i]) by {
            assert(rest[i] == text[i + 1]);
        }
        lemma_trimmed_span(rest, from - 1, to - 1);
        assert(rest.subrange(from - 1, to - 1) =~= text.subrange(from, to));
    } else if to < text.len() {
        let rest = text.drop_last();
        lemma_trimmed_span(rest, from, to);
        assert(rest.subrange(from, to) =~= text.subrange(from, to));
    } else {
        assert(text.subrange(from, to) =~= text);
    }
}

/// Whether `c` is white space.
pub fn is_whitespace(c: char) -> (blank: bool)
    ensures
        blank == is_blank(c),
{
    ('\u{9}' <= c && c <= '\u{d}') || c == ' ' || c == '\u{85}' || c == '\u{a0}' || c == '\u{1680}'
        || ('\u{2000}' <= c && c <= '\u{200a}') || c == '\u{2028}' || c == '\u{2029}' || c
        == '\u{202f}' || c == '\u{205f}' || c == '\u{3000}'
}

/// The part of `text` between its leading and its trailing white space.
pub fn trim(text: &str) -> (inner: &str)
    ensures
        inner@ == trimmed(text@),
{
    broadcast use vstd::string::group_string_axioms;

    let length = text.unicode_len();
    let mut from: usize = 0;
    let mut to: usize = 0;
    let mut at: usize = 0;
    for c in it: text.chars()
        invariant
            it.seq() == text@,
            length == text@.len(),
            at == it.index(),
            from <= to <= at,
            to == 0 ==> forall|i: int| 0 <= i < at ==> is_blank(#[trigger] text@[i]),
            to > 0 ==> from < to && !is_blank(text@[from as int]) && !is_blank(text@[to - 1]),
            to > 0 ==> forall|i: int| 0 <= i < from ==> is_blank(#[trigger] text@[i]),
            to > 0 ==> forall|i: int| to <= i < at ==> is_blank(#[trigger] text@[i]),
    {
        if !is_whitespace(c) {
            if to == 0 {
                from = at;
            }
            to = at + 1;
        }
        at = at + 1;
    }
    proof {
        if to == 0 {
            lemma_trimmed_blank(text@);
            assert(text@.subrange(0, 0) =~= Seq::<char>::empty());
        } else {
            lemma_trimmed_span(text@, from as int, to as int);
        }
    }
    text.substring_char(from, to)
}

/// Whether `c` is one of the ten decimal digits.
pub open spec fn is_digit(c: char) -> bool {
    '0' <= c && c <= '9'
}

/// The number that the digit `c` writes.
pub open spec fn digit_value(c: char) -> nat
    recommends
        is_digit(c),
{
    (c as nat - '0' as nat) as nat
}

/// The digit that writes `d`.
pub open spec fn digit_char(d: nat) -> char
    recommends
        d < 10,
{
    ('0' as u8 + d) as u8 as char
}

/// The decimal writing of `n`: no sign, no leading zero, and `0` for zero.
pub open spec fn decimal_text(n: nat) -> Seq<char>
    decreases n,
{
    if n < 10 {
        seq![digit_char(n)]
    } else {
        decimal_text(n / 10).push(digit_char(n % 10))
    }
}

/// One digit as text.
fn digit_text(d: usize) -> (text: &'static str)
    requires
        d < 10,
    ensures
        text@ == seq![digit_char(d as nat)],
{
    proof {
        reveal_strlit("0");
        reveal_strlit("1");
        reveal_strlit("2");
        reveal_strlit("3");
        reveal_strlit("4");
        reveal_strlit("5");
        reveal_strlit("6");
        reveal_strlit("7");
        reveal_strlit("8");
        reveal_strlit("9");
    }
    let text = match d {
        0 => "0",
        1 => "1",
        2 => "2",
        3 => "3",
        4 => "4",
        5 => "5",
        6 => "6",
        7 => "7",
        8 => "8",
        _ => "9",
    };
    assert(text@ =~= seq![digit_char(d as nat)]);
    text
}

/// Writes `n` in decimal.
pub fn decimal(n: usize) -> (text: String)
    ensures
        text@ == decimal_text(n as nat),
    decreases n,
{
    if n < 10 {
        String::from_str(digit_text(n))
    } else {
        let mut text = decimal(n / 10);
        text.append(digit_text(n % 10));
        text
    }
}

/// The number that a run of digits writes, read as decimal.
pub open spec fn digits_value(digits: Seq<char>) -> nat
    decreases digits.len(),
{
    if digits.len() == 0 {
        0
    } else {
        digits_value(digits.drop_last()) * 10 + digit_value(digits.last())
    }
}

/// Whether `text` is one digit or more, and nothing else.
pub open spec fn all_digits(text: Seq<char>) -> bool {
    text.len() > 0 && forall|i: int| 0 <= i < text.len() ==> is_digit(#[trigger] text[i])
}

/// `text` without the plus sign that may lead it.
pub open spec fn unsigned_part(text: Seq<char>) -> Seq<char> {
    if text.len() > 0 && text[0] == '+' {
        text.drop_first()
    } else {
        text
    }
}

/// The number that `text` writes: an optional plus sign, then digits only, at least one.
/// Any other text writes no number.
pub open spec fn parsed_number(text: Seq<char>) -> Option<nat> {
    if all_digits(unsigned_part(text)) {
        Some(digits_value(unsigned_part(text)))
    } else {
        None
    }
}

/// The index that `text` writes, where it writes a number that a `usize` holds.
pub open spec fn parsed_index(text: Seq<char>) -> Option<usize> {
    match parsed_number(text) {
        Some(n) if n <= usize::MAX => Some(n as usize),
        _ => None,
    }
}

/// A run of digits writes no less than any of its beginnings.
proof fn lemma_digits_value_grows(digits: Seq<char>, k: int)
    requires
        0 <= k <= digits.len(),
    ensures
        digits_value(digits.take(k)) <= digits_value(digits),
    decreases digits.len() - k,
{
    if k == digits.len() {
        assert(digits.take(k) =~= digits);
    } else {
        lemma_digits_value_grows(digits, k + 1);
        assert(digits.take(k + 1).drop_last() =~= digits.take(k));
    }
}

/// Reads `text` as an index, as `str::parse::<usize>` does.
pub fn parse_index(text: &str) -> (index: Option<usize>)
    ensures
        index == parsed_index(text@),
{
    broadcast use vstd::string::group_string_axioms;

    let mut value: usize = 0;
    let mut signed = false;
    let mut empty = true;
    let ghost digits = unsigned_part(text@);
    for c in it: text.chars()
        invariant
            it.seq() == text@,
            digits == unsigned_part(text@),
            signed ==> it.index() > 0 && text@[0] == '+',
            !signed && it.index() > 0 ==> text@[0] != '+',
            empty <==> it.index() == (if signed { 1int } else { 0int }),
            forall|i: int|
                0 <= i < it.index() - (if signed { 1int } else { 0int }) ==> is_digit(
                    #[trigger] digits[i],
                ),
            value == digits_value(digits.take(it.index() - (if signed { 1int } else { 0int }))),
    {
        let ghost count = it.index() - (if signed { 1int } else { 0int });
        if c == '+' && empty && !signed {
            signed = true;
        } else if '0' <= c && c <= '9' {
            let d: usize = (c as u8 - '0' as u8) as usize;
            proof {
                assert(digits[count] == c);
                assert(digits.take(count + 1).drop_last() =~= digits.take(count));
                assert(digits_value(digits.take(count + 1)) == value * 10 + d);
            }
            if value > (usize::MAX - d) / 10 {
                proof {
                    if all_digits(digits) {
                        lemma_digits_value_grows(digits, count + 1);
                    }
                }
                return None;
            }
            value = value * 10 + d;
            empty = false;
        } else {
            assert(!is_digit(digits[count]));
            return None;
        }
    }
    assert(digits.take(digits.len() as int) =~= digits);
    if empty {
        None
    } else {
        Some(value)
    }
}

/// The decimal writing of a number is made of digits, and they write that number.
proof fn lemma_decimal_digits(n: nat)
    ensures
        all_digits(decimal_text(n)),
        digits_value(decimal_text(n)) == n,
    decreases n,
{
    if n < 10 {
        assert(decimal_text(n).drop_last() =~= Seq::<char>::empty());
        assert(digits_value(decimal_text(n).drop_last()) == 0);
    } else {
        lemma_decimal_digits(n / 10);
        assert(decimal_text(n).drop_last() =~= decimal_text(n / 10));
    }
}

/// What is written is read back: the decimal writing of a number writes that number.
pub proof fn lemma_decimal_round_trip(n: nat)
    ensures
        parsed_number(decimal_text(n)) == Some(n),
        n <= usize::MAX ==> parsed_index(decimal_text(n)) == Some(n as usize),
{
    lemma_decimal_digits(n);
}

} // verus!
