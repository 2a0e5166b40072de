//! Masks for secrets and personal data, for use in logs.

use vstd::prelude::*;
use vstd::string::*;
use vstd::utf8::*;

verus! {

/// What stands in for the hidden part of a ping key.
pub open spec fn key_mask() -> Seq<char> {
    "************"@
}

/// What stands in for the hidden part of an email address.
pub open spec fn email_mask() -> Seq<char> {
    "****@******"@
}

/// The pattern that splits an email address into the part before the first
/// `@` and the host after it.
pub const EMAIL_PATTERN: &'static str = "^([^@]*)@(.+)$";

/// A ping key as it may appear in a log: its first four bytes, followed by
/// the mask. A key of fewer than four bytes is hidden whole.
pub open spec fn masked_key(key: Seq<char>) -> Seq<char> {
    let bytes = encode_utf8(key);
    if bytes.len() < 4 {
        key_mask()
    } else {
        decode_utf8(bytes.subrange(0, 4)) + key_mask()
    }
}

/// The first four bytes of `key` end with a character, so that the key can
/// be cut there.
pub open spec fn key_can_be_cut(key: Seq<char>) -> bool {
    encode_utf8(key).len() >= 4 ==> is_char_boundary(encode_utf8(key), 4)
}

/// Length of `text` in bytes.
pub fn byte_len(text: &str) -> (n: usize)
    ensures
        n == encode_utf8(text@).len(),
{
    text.as_bytes().len()
}

/// Mask ping key suitable for use in logs.
pub fn ping_key(key: &str) -> (r: String)
    requires
        key_can_be_cut(key@),
    ensures
        r@ == masked_key(key@),
{
    broadcast use {encode_utf8_decode_utf8, encode_utf8_valid_utf8};

    if byte_len(key) < 4 {
        "************".to_string()
    } else {
        let (head, _rest) = key.split_at(4);
        assert(head@ == decode_utf8(encode_utf8(head@)));
        let mut r = String::from_str(head);
        r.append("************");
        r
    }
}

/// Mask ping key suitable for use in logs, for any key: the result is
/// `None` where the fourth byte of the key is inside a character.
pub fn try_ping_key(key: &str) -> (r: Option<String>)
    ensures
        r is Some <==> key_can_be_cut(key@),
        r matches Some(m) ==> m@ == masked_key(key@),
{
    if byte_len(key) < 4 || key.is_char_boundary(4) {
        Some(ping_key(key))
    } else {
        None
    }
}

/// What the regular expression `pattern` captures in `text`: `None` where
/// the pattern is no valid expression or matches nowhere in the text, else
/// the text of each of its groups, the whole match first, with `None` for
/// a group that took no part in the match.
pub uninterp spec fn regex_captures(pattern: Seq<char>, text: Seq<char>) -> Option<Seq<Option<Seq<char>>>>;

/// Mathematical value of the groups of a match.
pub open spec fn groups_view(groups: Seq<Option<String>>) -> Seq<Option<Seq<char>>> {
    Seq::new(
        groups.len(),
        |i: int|
            match groups[i] {
                Some(g) => Some(g@),
                None => None,
            },
    )
}

/// Mathematical value of the result of a search.
pub open spec fn captures_view(captures: Option<Vec<Option<String>>>) -> Option<Seq<Option<Seq<char>>>> {
    match captures {
        Some(groups) => Some(groups_view(groups@)),
        None => None,
    }
}

/// Compiles `pattern` with `regex::Regex::new` and searches `text` with
/// `Regex::captures`. The result is the text of each group of the leftmost
/// match, or `None` where the pattern does not compile or matches nowhere.
/// Nothing is claimed of what a given pattern matches: the result is only
/// named.
#[verifier::external_body]
fn captures(pattern: &str, text: &str) -> (r: Option<Vec<Option<String>>>)
    ensures
        captures_view(r) == regex_captures(pattern@, text@),
{
    match regex::Regex::new(pattern) {
        Ok(re) => re.captures(text).map(
            |found| found.iter().map(|group| group.map(|m| m.as_str().to_string())).collect(),
        ),
        Err(_) => None,
    }
}

/// The two parts of an address that a search with [`EMAIL_PATTERN`] found:
/// the first and the second group, where both took part in the match.
pub open spec fn address_parts(captures: Option<Seq<Option<Seq<char>>>>) -> Option<(Seq<char>, Seq<char>)> {
    match captures {
        Some(groups) => if groups.len() >= 3 && groups[1] is Some && groups[2] is Some {
            Some((groups[1]->0, groups[2]->0))
        } else {
            None
        },
        None => None,
    }
}

/// The first byte of `local` is a character, and so are the last two
/// bytes of a `host` of more than two bytes, so that both can be cut
/// there.
pub open spec fn parts_can_be_cut(local: Seq<char>, host: Seq<char>) -> bool {
    &&& local.len() > 0 ==> is_char_boundary(encode_utf8(local), 1)
    &&& encode_utf8(host).len() > 2 ==> is_char_boundary(encode_utf8(host), encode_utf8(host).len() - 2)
}

/// What is shown of an address with the parts `local` and `host`: the first
/// byte of the local part, the mask, and the last two bytes of a host of
/// more than two bytes.
pub open spec fn masked_parts(local: Seq<char>, host: Seq<char>) -> Seq<char> {
    let head = if local.len() > 0 {
        decode_utf8(encode_utf8(local).subrange(0, 1))
    } else {
        Seq::<char>::empty()
    };
    let bytes = encode_utf8(host);
    let tail = if bytes.len() > 2 {
        decode_utf8(bytes.subrange(bytes.len() - 2, bytes.len() as int))
    } else {
        Seq::<char>::empty()
    };
    head + email_mask() + tail
}

/// The search result allows masking: where it holds the two parts of an
/// address, both can be cut.
pub open spec fn can_be_masked(captures: Option<Seq<Option<Seq<char>>>>) -> bool {
    address_parts(captures) matches Some((local, host)) ==> parts_can_be_cut(local, host)
}

/// An email address as it may appear in a log, given what the search with
/// [`EMAIL_PATTERN`] found in it: the masked parts of an address, and the
/// bare mask for anything that is no address.
pub open spec fn masked_email(captures: Option<Seq<Option<Seq<char>>>>) -> Seq<char> {
    match address_parts(captures) {
        Some((local, host)) => masked_parts(local, host),
        None => email_mask(),
    }
}

/// Masks an address with the parts `local` and `host`.
pub fn mask_parts(local: &str, host: &str) -> (r: String)
    requires
        parts_can_be_cut(local@, host@),
    ensures
        r@ == masked_parts(local@, host@),
{
    broadcast use {encode_utf8_decode_utf8, encode_utf8_valid_utf8};

    let mut r = String::new();
    if !local.is_empty() {
        let (head, _rest) = local.split_at(1);
        assert(head@ == decode_utf8(encode_utf8(head@)));
        r.append(head);
    }
    r.append("****@******");
    let n = byte_len(host);
    if n > 2 {
        let (_rest, tail) = host.split_at(n - 2);
        assert(tail@ == decode_utf8(encode_utf8(tail@)));
        r.append(tail);
    }
    assert(r@ =~= masked_parts(local@, host@));
    r
}

/// Whether both parts of an address can be cut.
pub fn parts_are_cuttable(local: &str, host: &str) -> (r: bool)
    ensures
        r == parts_can_be_cut(local@, host@),
{
    let n = byte_len(host);
    (local.is_empty() || local.is_char_boundary(1)) && (n <= 2 || host.is_char_boundary(n - 2))
}

/// Whether a search result allows masking.
pub fn captures_are_maskable(found: &Option<Vec<Option<String>>>) -> (r: bool)
    ensures
        r == can_be_masked(captures_view(*found)),
{
    match found {
        Some(groups) => {
            if groups.len() >= 3 {
                assert(groups_view(groups@)[1] is Some <==> groups@[1] is Some);
                assert(groups_view(groups@)[2] is Some <==> groups@[2] is Some);
                match (&groups[1], &groups[2]) {
                    (Some(local), Some(host)) => {
                        assert(groups_view(groups@)[1]->0 == local@);
                        assert(groups_view(groups@)[2]->0 == host@);
                        parts_are_cuttable(local.as_str(), host.as_str())
                    },
                    _ => true,
                }
            } else {
                true
            }
        },
        None => true,
    }
}

/// Masks an email address, given what the search with [`EMAIL_PATTERN`]
/// found in it.
pub fn email_from_captures(found: &Option<Vec<Option<String>>>) -> (r: String)
    requires
        can_be_masked(captures_view(*found)),
    ensures
        r@ == masked_email(captures_view(*found)),
{
    match found {
        Some(groups) => {
            if groups.len() >= 3 {
                assert(groups_view(groups@)[1] is Some <==> groups@[1] is Some);
                assert(groups_view(groups@)[2] is Some <==> groups@[2] is Some);
                match (&groups[1], &groups[2]) {
                    (Some(local), Some(host)) => {
                        assert(groups_view(groups@)[1]->0 == local@);
                        assert(groups_view(groups@)[2]->0 == host@);
                        mask_parts(local.as_str(), host.as_str())
                    },
                    _ => "****@******".to_string(),
                }
            } else {
                "****@******".to_string()
            }
        },
        None => "****@******".to_string(),
    }
}

/// Mask email address suitable for use in logs.
pub fn email(address: &str) -> (r: String)
    requires
        can_be_masked(regex_captures(EMAIL_PATTERN@, address@)),
    ensures
        r@ == masked_email(regex_captures(EMAIL_PATTERN@, address@)),
{
    let found = captures(EMAIL_PATTERN, address);
    email_from_captures(&found)
}

/// Mask email address suitable for use in logs, for any text: the result
/// is `None` where the address cannot be cut between characters.
pub fn try_email(address: &str) -> (r: Option<String>)
    ensures
        r is Some <==> can_be_masked(regex_captures(EMAIL_PATTERN@, address@)),
        r matches Some(m) ==> m@ == masked_email(regex_captures(EMAIL_PATTERN@, address@)),
{
    let found = captures(EMAIL_PATTERN, address);
    if captures_are_maskable(&found) {
        Some(email(address))
    } else {
        None
    }
}

} // verus!
