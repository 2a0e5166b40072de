//! Small helpers on text.

use vstd::prelude::*;
use vstd::string::*;

verus! {

/// Whether two texts hold the same characters.
pub fn same_text(a: &str, b: &str) -> (r: bool)
    ensures
        r == (a@ == b@),
{
    let left = String::from_str(a);
    let right = String::from_str(b);
    left == right
}

/// Whether `text` begins with `prefix`.
pub fn starts_with(text: &str, prefix: &str) -> (r: bool)
    ensures
        r == prefix@.is_prefix_of(text@),
{
    let n = prefix.unicode_len();
    if text.unicode_len() < n {
        return false;
    }
    let mut i: usize = 0;
    while i < n
        invariant
            i <= n,
            n == prefix@.len(),
            n <= text@.len(),
            forall|j: int| 0 <= j < i ==> text@[j] == prefix@[j],
        decreases n - i,
    {
        if text.get_char(i) != prefix.get_char(i) {
            return false;
        }
        i += 1;
    }
    assert(text@.subrange(0, n as int) =~= prefix@);
    true
}

/// What follows the first `n` characters of `text`.
pub fn skip_chars(text: &str, n: usize) -> (r: String)
    requires
        n <= text@.len(),
    ensures
        r@ == text@.skip(n as int),
{
    let len = text.unicode_len();
    let rest = text.substring_char(n, len);
    assert(text@.subrange(n as int, len as int) =~= text@.skip(n as int));
    String::from_str(rest)
}

/// Position of the first `c` in `text` at or after `from`, or the length
/// of `text` where there is none.
pub open spec fn position_from(text: Seq<char>, c: char, from: int) -> int
    decreases text.len() - from,
{
    if from >= text.len() {
        text.len() as int
    } else if text[from] == c {
        from
    } else {
        position_from(text, c, from + 1)
    }
}

/// Position of the first `c` in `text` at or after `from`, or the length
/// of `text` where there is none.
pub fn find_from(text: &str, c: char, from: usize) -> (r: usize)
    requires
        from <= text@.len(),
    ensures
        r == position_from(text@, c, from as int),
        from <= r <= text@.len(),
{
    let n = text.unicode_len();
    let mut i = from;
    while i < n
        invariant
            from <= i <= n,
            n == text@.len(),
            position_from(text@, c, from as int) == position_from(text@, c, i as int),
        decreases n - i,
    {
        if text.get_char(i) == c {
            return i;
        }
        i += 1;
    }
    i
}

/// The part of `text` before its first `|`.
pub open spec fn first_field(text: Seq<char>) -> Seq<char> {
    text.subrange(0, position_from(text, '|', 0))
}

/// The text has a `|`, and with it a second field.
pub open spec fn has_second_field(text: Seq<char>) -> bool {
    position_from(text, '|', 0) < text.len()
}

/// The part of `text` between its first `|` and its second, or the end.
pub open spec fn second_field(text: Seq<char>) -> Seq<char>
    recommends
        has_second_field(text),
{
    let start = position_from(text, '|', 0) + 1;
    text.subrange(start, position_from(text, '|', start))
}

/// Cuts the first two of the fields of `text` that `|` separates. A text
/// without `|` has no second field and gives `None`.
pub fn first_two_fields(text: &str) -> (r: Option<(String, String)>)
    ensures
        r is Some <==> has_second_field(text@),
        r matches Some((a, b)) ==> a@ == first_field(text@) && b@ == second_field(text@),
{
    let n = text.unicode_len();
    let bar = find_from(text, '|', 0);
    if bar >= n {
        return None;
    }
    let next = find_from(text, '|', bar + 1);
    let first = text.substring_char(0, bar);
    let second = text.substring_char(bar + 1, next);
    Some((String::from_str(first), String::from_str(second)))
}

/// The number that `text` writes, as `str::parse::<i64>` reads it; `None`
/// where it refuses the text.
pub uninterp spec fn i64_of_text(text: Seq<char>) -> Option<i64>;

/// The number that `text` writes, as `str::parse::<u16>` reads it; `None`
/// where it refuses the text.
pub uninterp spec fn u16_of_text(text: Seq<char>) -> Option<u16>;

/// The number that `text` writes, as `str::parse::<u32>` reads it; `None`
/// where it refuses the text.
pub uninterp spec fn u32_of_text(text: Seq<char>) -> Option<u32>;

/// The UUID that `text` writes, as `uuid::Uuid::parse_str` reads it, and
/// as a number; `None` where it refuses the text.
pub uninterp spec fn uuid_of_text(text: Seq<char>) -> Option<u128>;

/// `str::parse::<i64>`: reads a decimal number with an optional sign. The
/// result depends on the text alone; it is only named here.
#[verifier::external_body]
pub(crate) fn parse_i64(text: &str) -> (r: Option<i64>)
    ensures
        r == i64_of_text(text@),
{
    match text.parse::<i64>() {
        Ok(v) => Some(v),
        Err(_) => None,
    }
}

/// `str::parse::<u16>`: reads a decimal number. The result depends on the
/// text alone; it is only named here.
#[verifier::external_body]
pub(crate) fn parse_u16(text: &str) -> (r: Option<u16>)
    ensures
        r == u16_of_text(text@),
{
    match text.parse::<u16>() {
        Ok(v) => Some(v),
        Err(_) => None,
    }
}

/// `str::parse::<u32>`: reads a decimal number. The result depends on the
/// text alone; it is only named here.
#[verifier::external_body]
pub(crate) fn parse_u32(text: &str) -> (r: Option<u32>)
    ensures
        r == u32_of_text(text@),
{
    match text.parse::<u32>() {
        Ok(v) => Some(v),
        Err(_) => None,
    }
}

/// `uuid::Uuid::parse_str`, with the UUID as a number: reads a UUID from
/// hexadecimal digits with optional hyphens. The result depends on the
/// text alone; it is only named here.
#[verifier::external_body]
pub(crate) fn parse_uuid(text: &str) -> (r: Option<u128>)
    ensures
        r == uuid_of_text(text@),
{
    match uuid::Uuid::parse_str(text) {
        Ok(id) => Some(id.as_u128()),
        Err(_) => None,
    }
}

} // verus!
