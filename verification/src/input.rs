//! Reading a guess out of one line of text.
//!
//! A line holds a guess when, with the white space at both ends taken away,
//! it is an optional `+` followed by one or more decimal digits whose value
//! fits in a `u32`. Everything else is malformed. The model is stated over
//! the characters of the line; [`parse_guess`] computes it in one pass.

use vstd::prelude::*;
use vstd::std_specs::iter::IteratorSpec;

verus! {

/// Whether `c` is white space: the characters with the Unicode property
/// `White_Space`.
pub open spec fn is_whitespace(c: char) -> bool {
    ||| '\u{9}' <= c <= '\u{d}'
    ||| c == ' '
    ||| c == '\u{85}'
    ||| c == '\u{a0}'
    ||| c == '\u{1680}'
    ||| '\u{2000}' <= c <= '\u{200a}'
    ||| c == '\u{2028}'
    ||| c == '\u{2029}'
    ||| c == '\u{202f}'
    ||| c == '\u{205f}'
    ||| c == '\u{3000}'
}

/// Whether `c` is one of the decimal digits `0` to `9`.
pub open spec fn is_digit(c: char) -> bool {
    '0' <= c <= '9'
}

/// The number that the digit `c` stands for.
pub open spec fn digit_value(c: char) -> nat
    recommends
        is_digit(c),
{
    (c as int - '0' as int) as nat
}

/// Whether every character of `s` is a decimal digit.
pub open spec fn all_digits(s: Seq<char>) -> bool {
    forall|i: int| 0 <= i < s.len() ==> is_digit(#[trigger] s[i])
}

/// The number that a run of decimal digits denotes, most significant digit
/// first. The empty run denotes 0.
pub open spec fn decimal_value(digits: Seq<char>) -> nat
    decreases digits.len(),
{
    if digits.len() == 0 {
        0
    } else {
        10 * decimal_value(digits.drop_last()) + digit_value(digits.last())
    }
}

/// `s` without the white space it begins with.
pub open spec fn trim_start(s: Seq<char>) -> Seq<char>
    decreases s.len(),
{
    if s.len() > 0 && is_whitespace(s.first()) {
        trim_start(s.drop_first())
    } else {
        s
    }
}

/// `s` without the white space it ends with.
pub open spec fn trim_end(s: Seq<char>) -> Seq<char>
    decreases s.len(),
{
    if s.len() > 0 && is_whitespace(s.last()) {
        trim_end(s.drop_last())
    } else {
        s
    }
}

/// `s` without the white space at either end.
pub open spec fn trim(s: Seq<char>) -> Seq<char> {
    trim_end(trim_start(s))
}

/// `s` without a leading `+`, if it has one.
pub open spec fn without_sign(s: Seq<char>) -> Seq<char> {
    if s.len() > 0 && s.first() == '+' {
        s.drop_first()
    } else {
        s
    }
}

/// The number written in `s`: an optional `+`, then at least one digit and
/// nothing but digits, with a value of at most `u32::MAX`. `None` for
/// anything else.
pub open spec fn parsed_number(s: Seq<char>) -> Option<u32> {
    let digits = without_sign(s);
    if digits.len() > 0 && all_digits(digits) && decimal_value(digits) <= u32::MAX {
        Some(decimal_value(digits) as u32)
    } else {
        None
    }
}

/// The guess that a line of input holds, or `None` where the line is
/// malformed.
pub open spec fn parsed_guess(line: Seq<char>) -> Option<u32> {
    parsed_number(trim(line))
}

/// Where the digits of `s` begin, given that its first character other than
/// white space is at `first`: behind a `+` there, else at `first` itself.
pub open spec fn digits_start(s: Seq<char>, first: int) -> int {
    if 0 <= first < s.len() && s[first] == '+' {
        first + 1
    } else {
        first
    }
}

/// Whether `s` holds nothing but white space before index `upto`.
pub open spec fn blank_before(s: Seq<char>, upto: int) -> bool {
    forall|i: int| 0 <= i < upto && i < s.len() ==> is_whitespace(#[trigger] s[i])
}

/// Whether `s` holds nothing but white space from index `from` on.
pub open spec fn blank_from(s: Seq<char>, from: int) -> bool {
    forall|i: int| 0 <= from <= i < s.len() ==> is_whitespace(#[trigger] s[i])
}

/// How many characters of white space `s` begins with.
pub open spec fn leading_blanks(s: Seq<char>) -> nat
    decreases s.len(),
{
    if s.len() > 0 && is_whitespace(s.first()) {
        1 + leading_blanks(s.drop_first())
    } else {
        0
    }
}

/// Trimming at the start removes exactly the leading run of white space.
pub proof fn lemma_trim_start_skips(s: Seq<char>, first: int)
    requires
        0 <= first <= s.len(),
        blank_before(s, first),
        first < s.len() ==> !is_whitespace(s[first]),
    ensures
        trim_start(s) == s.skip(first),
    decreases first,
{
    if first > 0 {
        lemma_trim_start_skips(s.drop_first(), first - 1);
    }
}

/// Trimming at the end removes exactly the trailing run of white space.
pub proof fn lemma_trim_end_takes(s: Seq<char>, end: int)
    requires
        0 <= end <= s.len(),
        blank_from(s, end),
        end > 0 ==> !is_whitespace(s[end - 1]),
    ensures
        trim_end(s) == s.take(end),
    decreases s.len() - end,
{
    if end < s.len() {
        lemma_trim_end_takes(s.drop_last(), end);
    }
}

/// Trimming at the end yields a prefix that still holds every character
/// other than white space.
pub proof fn lemma_trim_end_keeps(s: Seq<char>, i: int)
    requires
        0 <= i < s.len(),
        !is_whitespace(s[i]),
    ensures
        i < trim_end(s).len() <= s.len(),
        trim_end(s) == s.take(trim_end(s).len() as int),
    decreases s.len(),
{
    if is_whitespace(s.last()) {
        lemma_trim_end_keeps(s.drop_last(), i);
    }
}

/// A run of digits denotes at least as much as any run it begins with.
pub proof fn lemma_decimal_value_grows(digits: Seq<char>, n: int)
    requires
        0 <= n <= digits.len(),
    ensures
        decimal_value(digits.take(n)) <= decimal_value(digits),
    decreases digits.len(),
{
    if n == digits.len() {
        assert(digits.take(n) =~= digits);
    } else {
        lemma_decimal_value_grows(digits.drop_last(), n);
        assert(digits.drop_last().take(n) =~= digits.take(n));
    }
}

/// What is left of a line once trimmed, where its first character other
/// than white space is at `first` and another one is at `seen`: it begins at
/// `first` and reaches beyond `seen`.
pub proof fn lemma_trim_reaches(s: Seq<char>, first: int, seen: int) -> (end: int)
    requires
        0 <= first <= seen < s.len(),
        blank_before(s, first),
        !is_whitespace(s[first]),
        !is_whitespace(s[seen]),
    ensures
        seen < end <= s.len(),
        trim(s) == s.subrange(first, end),
{
    lemma_trim_start_skips(s, first);
    lemma_trim_end_keeps(s.skip(first), seen - first);
    first + trim_end(s.skip(first)).len()
}

/// A line of nothing but white space holds no guess.
pub proof fn lemma_blank_is_malformed(s: Seq<char>)
    requires
        blank_before(s, s.len() as int),
    ensures
        parsed_guess(s) is None,
{
    lemma_trim_start_skips(s, s.len() as int);
}

/// A line is malformed where the place at which its digits should begin
/// holds no digit.
pub proof fn lemma_no_digit_is_malformed(s: Seq<char>, first: int)
    requires
        0 <= first < s.len(),
        blank_before(s, first),
        !is_whitespace(s[first]),
        digits_start(s, first) < s.len() ==> !is_digit(s[digits_start(s, first)]),
    ensures
        parsed_guess(s) is None,
{
    let end = lemma_trim_reaches(s, first, first);
    let digits = without_sign(s.subrange(first, end));
    if digits.len() > 0 {
        assert(digits[0] == s[digits_start(s, first)]);
    }
}

/// A line is malformed where, behind the place at which its digits begin
/// and not behind its last character other than white space, it holds a
/// character that is no digit.
pub proof fn lemma_stray_is_malformed(s: Seq<char>, first: int, stray: int, seen: int)
    requires
        0 <= first < s.len(),
        blank_before(s, first),
        !is_whitespace(s[first]),
        digits_start(s, first) <= stray <= seen < s.len(),
        !is_digit(s[stray]),
        !is_whitespace(s[seen]),
    ensures
        parsed_guess(s) is None,
{
    let end = lemma_trim_reaches(s, first, seen);
    let digits = without_sign(s.subrange(first, end));
    assert(digits[stray - digits_start(s, first)] == s[stray]);
}

/// A line is malformed where its digits begin with a run that already
/// denotes more than `u32::MAX`.
pub proof fn lemma_overflow_is_malformed(s: Seq<char>, first: int, upto: int)
    requires
        0 <= first < s.len(),
        blank_before(s, first),
        !is_whitespace(s[first]),
        digits_start(s, first) < upto <= s.len(),
        all_digits(s.subrange(digits_start(s, first), upto)),
        decimal_value(s.subrange(digits_start(s, first), upto)) > u32::MAX,
    ensures
        parsed_guess(s) is None,
{
    let start = digits_start(s, first);
    let end = lemma_trim_reaches(s, first, upto - 1);
    let digits = without_sign(s.subrange(first, end));
    lemma_decimal_value_grows(digits, upto - start);
    assert(digits.take(upto - start) =~= s.subrange(start, upto));
}

/// A line holds the guess that its digits denote where it is white space,
/// an optional `+`, at least one digit, and white space again.
pub proof fn lemma_well_formed(s: Seq<char>, first: int, end: int)
    requires
        0 <= first < s.len(),
        blank_before(s, first),
        !is_whitespace(s[first]),
        digits_start(s, first) < end <= s.len(),
        all_digits(s.subrange(digits_start(s, first), end)),
        blank_from(s, end),
        decimal_value(s.subrange(digits_start(s, first), end)) <= u32::MAX,
    ensures
        parsed_guess(s) == Some(decimal_value(s.subrange(digits_start(s, first), end)) as u32),
{
    lemma_trim_start_skips(s, first);
    lemma_trim_end_takes(s.skip(first), end - first);
    assert(without_sign(s.skip(first).take(end - first)) =~= s.subrange(
        digits_start(s, first),
        end,
    ));
}

/// The white space that `s` begins with ends at its first character other
/// than white space, or where `s` ends.
pub proof fn lemma_leading_blanks(s: Seq<char>)
    ensures
        leading_blanks(s) <= s.len(),
        blank_before(s, leading_blanks(s) as int),
        leading_blanks(s) < s.len() ==> !is_whitespace(s[leading_blanks(s) as int]),
        forall|i: int|
            0 <= i < s.len() && !is_whitespace(#[trigger] s[i]) ==> leading_blanks(s) <= i,
    decreases s.len(),
{
    if s.len() > 0 && is_whitespace(s.first()) {
        let rest = s.drop_first();
        lemma_leading_blanks(rest);
        assert forall|i: int|
            0 <= i < s.len() && !is_whitespace(#[trigger] s[i]) implies leading_blanks(s) <= i by {
            assert(s[i] == rest[i - 1]);
        }
    }
}

/// A line is malformed where it holds, anywhere, a character that is
/// neither a digit, nor white space, nor `+`: a letter, a decimal point, a
/// minus sign.
pub proof fn lemma_foreign_character_is_malformed(s: Seq<char>, at: int)
    requires
        0 <= at < s.len(),
        !is_digit(s[at]),
        !is_whitespace(s[at]),
        s[at] != '+',
    ensures
        parsed_guess(s) is None,
{
    lemma_leading_blanks(s);
    lemma_stray_is_malformed(s, leading_blanks(s) as int, at, at);
}

/// Whether `c` is white space.
pub fn char_is_whitespace(c: char) -> (b: bool)
    ensures
        b == is_whitespace(c),
{
    ('\u{9}' <= c && c <= '\u{d}')
        || c == ' '
        || c == '\u{85}'
        || c == '\u{a0}'
        || c == '\u{1680}'
        || ('\u{2000}' <= c && c <= '\u{200a}')
        || c == '\u{2028}'
        || c == '\u{2029}'
        || c == '\u{202f}'
        || c == '\u{205f}'
        || c == '\u{3000}'
}

/// The value of `c` where it is a decimal digit, `None` where it is not.
pub fn char_digit(c: char) -> (d: Option<u32>)
    ensures
        d is Some <==> is_digit(c),
        d matches Some(v) ==> v == digit_value(c) && v <= 9,
{
    if '0' <= c && c <= '9' {
        Some(c as u32 - '0' as u32)
    } else {
        None
    }
}

/// Reads the guess that `line` holds.
///
/// White space at both ends of the line is passed over, the end of line
/// that a reader leaves in place included. What remains must be an optional
/// `+` and then decimal digits only, at least one, with a value of at most
/// `u32::MAX`; any other line is malformed and gives `None`: an empty or
/// blank line, a word, a fraction, a negative number, a number too large.
pub fn parse_guess(line: &str) -> (guess: Option<u32>)
    ensures
        guess == parsed_guess(line@),
{
    let mut chars = line.chars();
    let ghost s = line@;
    let ghost mut at: int = 0;

    // The white space that the line begins with.
    let mut head: Option<char> = None;
    while head.is_none()
        invariant
            chars.obeys_prophetic_iter_laws(),
            chars.decrease() is Some,
            s == line@,
            0 <= at <= s.len(),
            chars.remaining() == s.skip(at),
            head is None ==> blank_before(s, at),
            head matches Some(c) ==> at >= 1 && c == s[at - 1] && !is_whitespace(c) && blank_before(
                s,
                at - 1,
            ),
        decreases chars.decrease()->0,
    {
        match chars.next() {
            None => {
                proof {
                    lemma_blank_is_malformed(s);
                }
                return None;
            },
            Some(c) => {
                proof {
                    at = at + 1;
                }
                if !char_is_whitespace(c) {
                    head = Some(c);
                }
            },
        }
    }
    let ghost first = at - 1;
    let ghost start = digits_start(s, first);

    // The sign, if there is one, and the digit that must follow.
    let mut lead: char = head.unwrap();
    if lead == '+' {
        match chars.next() {
            None => {
                proof {
                    lemma_no_digit_is_malformed(s, first);
                }
                return None;
            },
            Some(c) => {
                proof {
                    at = at + 1;
                }
                lead = c;
            },
        }
    }
    let mut value: u32 = match char_digit(lead) {
        None => {
            proof {
                lemma_no_digit_is_malformed(s, first);
            }
            return None;
        },
        Some(d) => d,
    };
    assert(decimal_value(s.subrange(start, at).drop_last()) == 0);

    // The digits that remain, up to the end or to white space.
    let mut more: bool = true;
    while more
        invariant
            chars.obeys_prophetic_iter_laws(),
            chars.decrease() is Some,
            s == line@,
            0 <= first < s.len(),
            blank_before(s, first),
            !is_whitespace(s[first]),
            start == digits_start(s, first),
            start < at <= s.len(),
            chars.remaining() == s.skip(at),
            more ==> all_digits(s.subrange(start, at)) && value == decimal_value(
                s.subrange(start, at),
            ),
            !more ==> is_whitespace(s[at - 1]) && start < at - 1 && all_digits(
                s.subrange(start, at - 1),
            ) && value == decimal_value(s.subrange(start, at - 1)),
        decreases chars.decrease()->0,
    {
        match chars.next() {
            None => {
                proof {
                    lemma_well_formed(s, first, at);
                }
                return Some(value);
            },
            Some(c) => {
                proof {
                    at = at + 1;
                }
                match char_digit(c) {
                    Some(d) => {
                        assert(s.subrange(start, at).drop_last() =~= s.subrange(start, at - 1));
                        let grown = match value.checked_mul(10) {
                            Some(tens) => tens.checked_add(d),
                            None => None,
                        };
                        match grown {
                            Some(v) => {
                                value = v;
                            },
                            None => {
                                proof {
                                    lemma_overflow_is_malformed(s, first, at);
                                }
                                return None;
                            },
                        }
                    },
                    None => {
                        if char_is_whitespace(c) {
                            more = false;
                        } else {
                            proof {
                                lemma_stray_is_malformed(s, first, at - 1, at - 1);
                            }
                            return None;
                        }
                    },
                }
            },
        }
    }
    let ghost end = at - 1;

    // The white space that the line ends with.
    loop
        invariant
            chars.obeys_prophetic_iter_laws(),
            chars.decrease() is Some,
            s == line@,
            0 <= first < s.len(),
            blank_before(s, first),
            !is_whitespace(s[first]),
            start == digits_start(s, first),
            start < end < at <= s.len(),
            chars.remaining() == s.skip(at),
            all_digits(s.subrange(start, end)),
            value == decimal_value(s.subrange(start, end)),
            forall|i: int| end <= i < at ==> is_whitespace(#[trigger] s[i]),
        decreases chars.decrease()->0,
    {
        match chars.next() {
            None => {
                proof {
                    lemma_well_formed(s, first, end);
                }
                return Some(value);
            },
            Some(c) => {
                proof {
                    at = at + 1;
                }
                if !char_is_whitespace(c) {
                    proof {
                        lemma_stray_is_malformed(s, first, end, at - 1);
                    }
                    return None;
                }
            },
        }
    }
}

} // verus!
