//! Text primitives that the router is built on: comparison by content,
//! prefixes, and the split of a line into words.

use vstd::prelude::*;
use vstd::string::*;

verus! {

/// Whether `prefix` opens `text`.
pub open spec fn opens_with(text: Seq<char>, prefix: Seq<char>) -> bool {
    prefix.len() <= text.len() && text.subrange(0, prefix.len() as int) == prefix
}

/// `text` without `prefix` in front, or `text` itself where it does not open with it.
pub open spec fn without_prefix(text: Seq<char>, prefix: Seq<char>) -> Seq<char> {
    if opens_with(text, prefix) {
        text.subrange(prefix.len() as int, text.len() as int)
    } else {
        text
    }
}

/// The words of `text`, as `str::split_whitespace` yields them, in order.
pub uninterp spec fn whitespace_words(text: Seq<char>) -> Seq<Seq<char>>;

/// `text` as `str::trim` leaves it.
pub uninterp spec fn trimmed(text: Seq<char>) -> Seq<char>;

/// The contents of a list of borrowed words.
pub open spec fn views(words: Seq<&str>) -> Seq<Seq<char>> {
    Seq::new(words.len(), |i: int| words[i]@)
}

/// The contents of optional arguments.
pub open spec fn args_of(args: Option<&Vec<&str>>) -> Option<Seq<Seq<char>>> {
    match args {
        Some(a) => Some(views(a@)),
        None => None,
    }
}

/// Calls `str::split_whitespace` and collects what it yields. Trusted: the
/// words that come back are the ones named by `whitespace_words`, which depend
/// on the text alone.
#[verifier::external_body]
pub(crate) fn split_words<'a>(text: &'a str) -> (words: Vec<&'a str>)
    ensures
        views(words@) == whitespace_words(text@),
{
    text.split_whitespace().collect()
}

/// Calls `str::trim`. Trusted: the slice that comes back is the one named by
/// `trimmed`, which depends on the text alone.
#[verifier::external_body]
pub(crate) fn trim_text<'a>(text: &'a str) -> (inner: &'a str)
    ensures
        inner@ == trimmed(text@),
{
    text.trim()
}

/// Compares two texts by content, without allocating.
pub fn str_eq(a: &str, b: &str) -> (same: bool)
    ensures
        same == (a@ == b@),
{
    let n: usize = a.unicode_len();
    if n != b.unicode_len() {
        return false;
    }
    let mut i: usize = 0;
    while i < n
        invariant
            i <= n,
            n == a@.len(),
            n == b@.len(),
            forall|j: int| 0 <= j < i ==> a@[j] == b@[j],
        decreases n - i,
    {
        if a.get_char(i) != b.get_char(i) {
            return false;
        }
        i += 1;
    }
    assert(a@ =~= b@);
    true
}

/// Whether `text` opens with `prefix`.
pub fn starts_with(text: &str, prefix: &str) -> (yes: bool)
    ensures
        yes == opens_with(text@, prefix@),
{
    let n: usize = prefix.unicode_len();
    if n > text.unicode_len() {
        return false;
    }
    let mut i: usize = 0;
    while i < n
        invariant
            i <= n,
            n == prefix@.len(),
            n <= text@.len(),
            forall|j: int| 0 <= j < i ==> text@[j] == prefix@[j],
        decreases n - i,
    {
        if text.get_char(i) != prefix.get_char(i) {
            assert(text@.subrange(0, n as int)[i as int] != prefix@[i as int]);
            return false;
        }
        i += 1;
    }
    assert(text@.subrange(0, n as int) =~= prefix@);
    true
}

/// Removes `prefix` from the front of `text`; a text that does not open with
/// it comes back whole.
pub fn strip_prefix<'a>(text: &'a str, prefix: &str) -> (rest: &'a str)
    ensures
        rest@ == without_prefix(text@, prefix@),
{
    if !starts_with(text, prefix) {
        text
    } else {
        text.substring_char(prefix.unicode_len(), text.unicode_len())
    }
}

/// The character of a decimal digit.
pub open spec fn digit(d: int) -> char {
    if d == 0 {
        '0'
    } else if d == 1 {
        '1'
    } else if d == 2 {
        '2'
    } else if d == 3 {
        '3'
    } else if d == 4 {
        '4'
    } else if d == 5 {
        '5'
    } else if d == 6 {
        '6'
    } else if d == 7 {
        '7'
    } else if d == 8 {
        '8'
    } else {
        '9'
    }
}

/// The decimal digits of a natural number, without leading zeros.
pub open spec fn digits(n: nat) -> Seq<char>
    decreases n,
{
    if n < 10 {
        seq![digit(n as int)]
    } else {
        digits(n / 10).push(digit((n % 10) as int))
    }
}

/// The decimal text of a whole number: its digits, behind `-` where it is
/// negative.
pub open spec fn decimal(n: int) -> Seq<char> {
    if n < 0 {
        seq!['-'] + digits((-n) as nat)
    } else {
        digits(n as nat)
    }
}

/// Whether `c` is a decimal digit.
pub open spec fn is_digit(c: char) -> bool {
    c == '0' || c == '1' || c == '2' || c == '3' || c == '4' || c == '5' || c == '6' || c == '7'
        || c == '8' || c == '9'
}

/// The value of a decimal digit.
pub open spec fn digit_value(c: char) -> nat {
    if c == '1' {
        1
    } else if c == '2' {
        2
    } else if c == '3' {
        3
    } else if c == '4' {
        4
    } else if c == '5' {
        5
    } else if c == '6' {
        6
    } else if c == '7' {
        7
    } else if c == '8' {
        8
    } else if c == '9' {
        9
    } else {
        0
    }
}

/// The number that a run of decimal digits writes.
pub open spec fn number_of(text: Seq<char>) -> nat
    decreases text.len(),
{
    if text.len() == 0 {
        0
    } else {
        number_of(text.drop_last()) * 10 + digit_value(text.last())
    }
}

/// The count that a text writes: an optional `+`, then one or more decimal
/// digits and nothing else, for a number that fits 64 bits; `None` for any
/// other text.
pub open spec fn parsed_count(text: Seq<char>) -> Option<u64> {
    let body = if text.len() > 0 && text[0] == '+' {
        text.skip(1)
    } else {
        text
    };
    if body.len() > 0 && (forall|i: int| 0 <= i < body.len() ==> is_digit(#[trigger] body[i]))
        && number_of(body) <= u64::MAX {
        Some(number_of(body) as u64)
    } else {
        None
    }
}

/// Calls `i128::to_string`. Trusted: the text that comes back is the number in
/// decimal, its digits without leading zeros, behind `-` where it is negative.
#[verifier::external_body]
pub(crate) fn decimal_text(n: i128) -> (text: String)
    ensures
        text@ == decimal(n as int),
{
    n.to_string()
}

/// Calls `str::parse::<u64>` and drops the error's detail. Trusted: a text
/// made of an optional `+` and one or more decimal digits gives the number it
/// writes, where that fits 64 bits; any other text gives `None`.
#[verifier::external_body]
pub(crate) fn parse_count(text: &str) -> (count: Option<u64>)
    ensures
        count == parsed_count(text@),
{
    text.parse::<u64>().ok()
}

/// The characters of a text, one by one.
pub fn to_chars(text: &str) -> (chars: Vec<char>)
    ensures
        chars@ == text@,
{
    let n: usize = text.unicode_len();
    let mut chars: Vec<char> = Vec::new();
    let mut i: usize = 0;
    while i < n
        invariant
            i <= n,
            n == text@.len(),
            chars@ == text@.subrange(0, i as int),
        decreases n - i,
    {
        chars.push(text.get_char(i));
        assert(chars@ =~= text@.subrange(0, i + 1));
        i += 1;
    }
    assert(chars@ =~= text@);
    chars
}

} // verus!
