//! Identifiers: 128-bit UUID values, and the operations the library takes
//! from the `uuid` crate.
use vstd::prelude::*;

verus! {

/// A UUID, held as its 128-bit big-endian value (`uuid::Uuid::as_u128`).
#[derive(Clone, Copy, Debug, PartialEq, Eq, Hash, Structural)]
pub struct Uuid {
    pub value: u128,
}

/// Name for what `uuid::Uuid::parse_str` yields for a text, as the parsed
/// 128-bit value, or `None` where the text is not a UUID in one of the
/// crate's accepted forms.
pub uninterp spec fn uuid_parse(s: Seq<char>) -> Option<u128>;

/// The lower-case hexadecimal digit for `d < 16`.
pub open spec fn hex_digit(d: nat) -> char {
    if d < 10 {
        ((48 + d) as u32) as char
    } else {
        ((87 + d) as u32) as char
    }
}

/// The last `count` hexadecimal digits of `value`, most significant
/// first, with leading zeros.
pub open spec fn hex_digits(value: nat, count: nat) -> Seq<char>
    decreases count,
{
    if count == 0 {
        seq![]
    } else {
        hex_digits(value / 16, (count - 1) as nat).push(hex_digit(value % 16))
    }
}

/// The hyphenated lower-case text of a UUID: its 32 hexadecimal digits,
/// most significant first, in groups of 8, 4, 4, 4 and 12 joined by '-'.
pub open spec fn uuid_text(value: u128) -> Seq<char> {
    let h = hex_digits(value as nat, 32);
    h.subrange(0, 8) + "-"@ + h.subrange(8, 12) + "-"@ + h.subrange(12, 16) + "-"@ + h.subrange(
        16,
        20,
    ) + "-"@ + h.subrange(20, 32)
}

impl Uuid {
    /// A fresh random (version 4) UUID, `uuid::Uuid::new_v4`. Claimed: the
    /// version nibble is 4 and the variant bits are `10`, which the crate
    /// sets on every value it returns; nothing else is claimed.
    #[verifier::external_body]
    pub(crate) fn new_v4() -> (r: Uuid)
        ensures
            (r.value >> 76u128) & 0xfu128 == 4u128,
            (r.value >> 62u128) & 0x3u128 == 2u128,
    {
        Uuid { value: uuid::Uuid::new_v4().as_u128() }
    }

    /// `uuid::Uuid::parse_str`. Claimed: the result is the named parse of
    /// the text.
    #[verifier::external_body]
    pub(crate) fn parse_str(s: &str) -> (r: Option<Uuid>)
        ensures
            r matches Some(u) ==> uuid_parse(s@) == Some(u.value),
            r is None ==> uuid_parse(s@) is None,
    {
        match uuid::Uuid::parse_str(s) {
            Ok(u) => Some(Uuid { value: u.as_u128() }),
            Err(_) => None,
        }
    }

    /// The hyphenated text of the value (`uuid.to_string()`). Claimed: the
    /// text is the hyphenated lower-case hexadecimal rendering, and `parse_str` reads it back as the same
    /// value (the hyphenated form is one of the forms the parser accepts).
    #[verifier::external_body]
    pub(crate) fn to_text(&self) -> (r: String)
        ensures
            r@ == uuid_text(self.value),
            uuid_parse(r@) == Some(self.value),
    {
        uuid::Uuid::from_u128(self.value).to_string()
    }
}

impl Uuid {
    /// The hyphenated lower-case text of the UUID, which reads back as the
    /// same value.
    pub fn hyphenated_text(&self) -> (r: String)
        ensures
            r@ == uuid_text(self.value),
            uuid_parse(r@) == Some(self.value),
    {
        self.to_text()
    }
}

} // verus!
