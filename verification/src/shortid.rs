//! Short identifiers: a 128-bit identifier written as 26 letters and digits
//! of Crockford's base 32, the text form of a ULID.

use vstd::prelude::*;

verus! {

/// Number of characters of a short identifier.
pub const SHORT_ID_LEN: usize = 26;

/// The digits of Crockford's base 32, in the order of their values.
pub open spec fn crockford_alphabet() -> Seq<char> {
    "0123456789ABCDEFGHJKMNPQRSTVWXYZ"@
}

/// 32 to the power of `n`.
pub open spec fn pow32(n: nat) -> nat
    decreases n,
{
    if n == 0 {
        1
    } else {
        32 * pow32((n - 1) as nat)
    }
}

/// Value of the digit at position `i` of the text of `value`, the most
/// significant digit at position 0.
pub open spec fn digit_at(value: u128, i: int) -> int {
    (value as int / pow32((25 - i) as nat) as int) % 32
}

/// The text of `value`: its 26 digits in base 32, the most significant
/// first.
pub open spec fn short_text(value: u128) -> Seq<char> {
    Seq::new(26, |i: int| crockford_alphabet()[digit_at(value, i)])
}

/// The character `c` is a way to write the digit `d`: the digit's upper
/// case form, or for a letter its lower case form.
pub open spec fn writes_digit(c: char, d: int) -> bool {
    &&& 0 <= d < 32
    &&& (c == crockford_alphabet()[d] || (d >= 10 && c as u32 == crockford_alphabet()[d] as u32 + 32))
}

/// The character `c` is a digit.
pub open spec fn is_digit(c: char) -> bool {
    exists|d: int| writes_digit(c, d)
}

/// The value of the digit `c`.
pub open spec fn digit_value(c: char) -> int
    recommends
        is_digit(c),
{
    choose|d: int| writes_digit(c, d)
}

/// The number that the first `n` digits of `text` write.
pub open spec fn digits_value(text: Seq<char>, n: nat) -> nat
    decreases n,
{
    if n == 0 {
        0
    } else {
        (32 * digits_value(text, (n - 1) as nat) + digit_value(text[n - 1])) as nat
    }
}

/// The text is a short identifier: 26 digits.
pub open spec fn is_short_text(text: Seq<char>) -> bool {
    text.len() == 26 && forall|i: int| 0 <= i < 26 ==> is_digit(#[trigger] text[i])
}

/// The identifier that `text` writes. 26 digits hold 130 bits: the two
/// highest are dropped.
pub open spec fn short_value(text: Seq<char>) -> u128
    recommends
        is_short_text(text),
{
    (digits_value(text, 26) as int % (u128::MAX as int + 1)) as u128
}

/// The version and variant marks of a random UUID are set in `value`.
pub open spec fn is_random_uuid(value: u128) -> bool {
    value & 0x0000_0000_0000_f000_c000_0000_0000_0000 == 0x0000_0000_0000_4000_8000_0000_0000_0000
}

/// `uuid::Uuid::new_v4`, as a number: a fresh random UUID. Each call gives
/// another value; all that is claimed is that the value carries the marks
/// of version 4.
#[verifier::external_body]
fn random_uuid() -> (r: u128)
    ensures
        is_random_uuid(r),
{
    uuid::Uuid::new_v4().as_u128()
}

/// `ulid::Ulid::to_string` on the ULID made of `value`: 26 characters, each
/// the base 32 digit of the five bits at its position.
#[verifier::external_body]
fn ulid_to_string(value: u128) -> (r: String)
    ensures
        r@ == short_text(value),
{
    ulid::Ulid::from(value).to_string()
}

/// `ulid::Ulid::from_string`, with the ULID as a number. It accepts exactly
/// the texts of 26 digits, in either case, and gives the number that they
/// write, cut to 128 bits.
#[verifier::external_body]
fn ulid_from_string(text: &str) -> (r: Option<u128>)
    ensures
        r is Some <==> is_short_text(text@),
        r matches Some(v) ==> v == short_value(text@),
{
    match ulid::Ulid::from_string(text) {
        Ok(id) => Some(u128::from(id)),
        Err(_) => None,
    }
}

/// Why a text is no short identifier.
#[derive(Clone, Copy, Debug, PartialEq, Eq, Structural)]
pub enum ParseShortIdError {
    DecodeFailure,
}

impl ParseShortIdError {
    pub fn to_string(&self) -> (r: String)
        ensures
            r@ == "value could not be parsed as an identifier"@,
    {
        "value could not be parsed as an identifier".to_string()
    }
}

/// A 128-bit identifier with a short text form.
#[derive(Clone, Copy, Debug, PartialEq, Eq, Structural)]
pub struct ShortId {
    pub value: u128,
}

impl ShortId {
    /// A fresh random identifier.
    pub fn new() -> (r: Self)
        ensures
            is_random_uuid(r.value),
    {
        ShortId { value: random_uuid() }
    }

    /// The short identifier of the UUID with the number `id`.
    pub fn from_uuid(id: u128) -> (r: Self)
        ensures
            r.value == id,
    {
        ShortId { value: id }
    }

    /// The number of the UUID.
    pub fn as_uuid(&self) -> (r: u128)
        ensures
            r == self.value,
    {
        self.value
    }

    /// The number of the UUID.
    pub fn into_uuid(self) -> (r: u128)
        ensures
            r == self.value,
    {
        self.value
    }

    /// The identifier's text: 26 digits of base 32.
    pub fn to_string(&self) -> (r: String)
        ensures
            r@ == short_text(self.value),
    {
        ulid_to_string(self.value)
    }

    /// Reads an identifier from its text. A text is accepted if and only if
    /// it holds 26 digits of base 32, in upper or lower case.
    pub fn from_str(s: &str) -> (r: Result<ShortId, ParseShortIdError>)
        ensures
            r is Ok <==> is_short_text(s@),
            r matches Ok(id) ==> id.value == short_value(s@),
    {
        match ulid_from_string(s) {
            Some(value) => Ok(ShortId { value }),
            None => Err(ParseShortIdError::DecodeFailure),
        }
    }
}

/// Each digit of the alphabet writes its own value and no other.
pub proof fn lemma_alphabet_digit(d: int)
    requires
        0 <= d < 32,
    ensures
        is_digit(crockford_alphabet()[d]),
        digit_value(crockford_alphabet()[d]) == d,
{
    let a = crockford_alphabet();
    reveal_strlit("0123456789ABCDEFGHJKMNPQRSTVWXYZ");
    assert(a.len() == 32);
    assert(a[0] == '0' && a[1] == '1' && a[2] == '2' && a[3] == '3' && a[4] == '4' && a[5] == '5' && a[6] == '6'
        && a[7] == '7');
    assert(a[8] == '8' && a[9] == '9' && a[10] == 'A' && a[11] == 'B' && a[12] == 'C' && a[13] == 'D' && a[14]
        == 'E' && a[15] == 'F');
    assert(a[16] == 'G' && a[17] == 'H' && a[18] == 'J' && a[19] == 'K' && a[20] == 'M' && a[21] == 'N' && a[22]
        == 'P' && a[23] == 'Q');
    assert(a[24] == 'R' && a[25] == 'S' && a[26] == 'T' && a[27] == 'V' && a[28] == 'W' && a[29] == 'X' && a[30]
        == 'Y' && a[31] == 'Z');
    assert(writes_digit(a[d], d));
    let e = choose|e: int| writes_digit(a[d], e);
    assert(forall|i: int| 0 <= i < 32 ==> 48 <= #[trigger] a[i] as u32 <= 90);
    assert(e == d);
}

/// The power of 32 that 26 digits reach is beyond every identifier.
pub proof fn lemma_pow32_bounds()
    ensures
        pow32(26) > u128::MAX,
        forall|n: nat| pow32(n) > 0,
{
    reveal_with_fuel(pow32, 27);
    assert forall|n: nat| pow32(n) > 0 by {
        lemma_pow32_positive(n);
    }
}

/// Powers of 32 are positive.
pub proof fn lemma_pow32_positive(n: nat)
    ensures
        pow32(n) > 0,
    decreases n,
{
    if n > 0 {
        lemma_pow32_positive((n - 1) as nat);
    }
}

/// The first `n` digits of the text of `value` write what is left of
/// `value` when the other digits are cut off.
pub proof fn lemma_leading_digits(value: u128, n: nat)
    requires
        n <= 26,
    ensures
        digits_value(short_text(value), n) == value as int / pow32((26 - n) as nat) as int,
    decreases n,
{
    let text = short_text(value);
    lemma_pow32_bounds();
    if n == 0 {
        vstd::arithmetic::div_mod::lemma_basic_div(value as int, pow32(26) as int);
    } else {
        lemma_leading_digits(value, (n - 1) as nat);
        let low = pow32((26 - n) as nat) as int;
        let x = value as int / low;
        lemma_alphabet_digit(digit_at(value, n - 1));
        assert(text[n - 1] == crockford_alphabet()[digit_at(value, n - 1)]);
        assert(digit_value(text[n - 1]) == x % 32);
        assert(pow32((27 - n) as nat) == 32 * pow32((26 - n) as nat));
        vstd::arithmetic::div_mod::lemma_div_denominator(value as int, low, 32);
        assert(x / 32 == value as int / (low * 32));
        vstd::arithmetic::div_mod::lemma_fundamental_div_mod(x, 32);
    }
}

/// Round trip: the text of an identifier is a short identifier, and it
/// reads back as the identifier.
pub proof fn lemma_short_text_round_trip(value: u128)
    ensures
        short_text(value).len() == 26,
        is_short_text(short_text(value)),
        short_value(short_text(value)) == value,
{
    let text = short_text(value);
    assert forall|i: int| 0 <= i < 26 implies is_digit(#[trigger] text[i]) by {
        lemma_alphabet_digit(digit_at(value, i));
    }
    lemma_leading_digits(value, 26);
    assert(pow32((26 - 26nat) as nat) == 1);
    vstd::arithmetic::div_mod::lemma_div_basics(value as int);
    assert(digits_value(text, 26) == value as int);
    vstd::arithmetic::div_mod::lemma_small_mod(value as nat, (u128::MAX as int + 1) as nat);
}

} // verus!
