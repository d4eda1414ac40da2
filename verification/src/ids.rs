//! UUIDs: parsing, writing and making them.
use vstd::prelude::*;
use crate::text::digit_char;

verus! {

/// The lowercase hexadecimal character of the digit `d` (below 16).
pub open spec fn hex_char(d: nat) -> char {
    if d < 10 {
        digit_char(d)
    } else if d == 10 {
        'a'
    } else if d == 11 {
        'b'
    } else if d == 12 {
        'c'
    } else if d == 13 {
        'd'
    } else if d == 14 {
        'e'
    } else {
        'f'
    }
}

/// The last `n` hexadecimal digits of `v`, most significant first.
pub open spec fn hex_digits(v: nat, n: nat) -> Seq<char>
    decreases n,
{
    if n == 0 {
        Seq::empty()
    } else {
        hex_digits(v / 16, (n - 1) as nat).push(hex_char(v % 16))
    }
}

/// The hyphenated form of the UUID with value `v`: its 32 hexadecimal digits,
/// most significant first, grouped 8-4-4-4-12.
pub open spec fn uuid_hyphenated(v: u128) -> Seq<char> {
    let h = hex_digits(v as nat, 32);
    h.subrange(0, 8) + seq!['-'] + h.subrange(8, 12) + seq!['-'] + h.subrange(12, 16) + seq!['-']
        + h.subrange(16, 20) + seq!['-'] + h.subrange(20, 32)
}

/// What `uuid::Uuid::parse_str` makes of a string: the UUID's value, or, if
/// the string is not a UUID in one of the forms it accepts, the `Debug` form
/// of the crate's error.
pub uninterp spec fn uuid_parse(s: Seq<char>) -> Result<u128, Seq<char>>;

/// Parses a UUID.
///
/// Calls `uuid::Uuid::parse_str`. Claims that the result is `uuid_parse` of
/// the string: the value, or the `Debug` form of the crate's error.
#[verifier::external_body]
pub(crate) fn parse_uuid(s: &str) -> (r: Result<u128, String>)
    ensures
        match uuid_parse(s@) {
            Ok(v) => r == Ok::<u128, String>(v),
            Err(t) => r matches Err(m) && m@ == t,
        },
{
    match uuid::Uuid::parse_str(s) {
        Ok(u) => Ok(u.as_u128()),
        Err(e) => Err(format!("{:?}", e)),
    }
}

/// `uuid::Uuid::parse_str` reads `s` as the UUID `v`.
pub open spec fn reads_back(s: Seq<char>, v: u128) -> bool {
    uuid_parse(s) == Ok::<u128, Seq<char>>(v)
}

/// Writes a UUID in its hyphenated form.
///
/// Calls `uuid::Uuid::to_string` (its `Display` form). Claims the hyphenated
/// form of the value, as the crate documents it, and that `parse_str` reads it
/// back (the crate documents that its parser accepts every form it writes).
#[verifier::external_body]
pub(crate) fn uuid_to_string(v: u128) -> (s: String)
    ensures
        s@ == uuid_hyphenated(v),
        reads_back(s@, v),
{
    uuid::Uuid::from_u128(v).to_string()
}

/// A fresh random (version 4) UUID.
///
/// Calls `uuid::Uuid::new_v4`. Nothing is claimed of the value: it is random.
#[verifier::external_body]
pub(crate) fn new_uuid_v4() -> (v: u128) {
    uuid::Uuid::new_v4().as_u128()
}

/// Hexadecimal digits are never slashes, colons or hyphens.
pub proof fn lemma_hex_digits_plain(v: nat, n: nat)
    ensures
        forall|i: int|
            0 <= i < hex_digits(v, n).len() ==> {
                let c = #[trigger] hex_digits(v, n)[i];
                c != '/' && c != '-'
            },
        hex_digits(v, n).len() == n,
    decreases n,
{
    if n > 0 {
        lemma_hex_digits_plain(v / 16, (n - 1) as nat);
    }
}

/// The hyphenated form of a UUID holds no slash.
pub proof fn lemma_uuid_no_slash(v: u128)
    ensures
        !uuid_hyphenated(v).contains('/'),
        uuid_hyphenated(v).len() == 36,
{
    lemma_hex_digits_plain(v as nat, 32);
    let h = hex_digits(v as nat, 32);
    let u = uuid_hyphenated(v);
    assert forall|i: int| 0 <= i < u.len() implies u[i] != '/' by {
        if i < 8 {
            assert(u[i] == h[i]);
        } else if i == 8 {
        } else if i < 13 {
            assert(u[i] == h[i - 1]);
        } else if i == 13 {
        } else if i < 18 {
            assert(u[i] == h[i - 2]);
        } else if i == 18 {
        } else if i < 23 {
            assert(u[i] == h[i - 3]);
        } else if i == 23 {
        } else {
            assert(u[i] == h[i - 4]);
        }
    }
}

} // verus!
