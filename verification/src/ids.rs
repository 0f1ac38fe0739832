//! Identifiers and timestamps of the domain records.

use vstd::prelude::*;
use vstd::arithmetic::power::pow;

verus! {

/// A 128-bit universally unique identifier (as the `uuid` crate keeps it).
#[derive(Clone, Copy, Debug, PartialEq, Eq, Structural, Hash)]
pub struct Uuid(pub u128);

/// The value that `uuid::Uuid::parse_str` gives for a text, if it accepts it.
pub uninterp spec fn uuid_from_text(text: Seq<char>) -> Option<u128>;

/// The lower-case hexadecimal digit of a value below 16.
pub open spec fn hex_digit(n: int) -> char {
    if n < 10 {
        ('0' as int + n) as char
    } else {
        ('a' as int + n - 10) as char
    }
}

/// The `k`-th of the 32 hexadecimal digits of `v`, the most significant first.
pub open spec fn nibble(v: u128, k: int) -> int {
    (v as int / pow(16, (31 - k) as nat)) % 16
}

/// Which digit stands at position `i` of the hyphenated text.
pub open spec fn digit_index(i: int) -> int {
    if i < 8 {
        i
    } else if i < 13 {
        i - 1
    } else if i < 18 {
        i - 2
    } else if i < 23 {
        i - 3
    } else {
        i - 4
    }
}

/// The 36 characters `xxxxxxxx-xxxx-xxxx-xxxx-xxxxxxxxxxxx` of `v`.
pub open spec fn hyphenated_text(v: u128) -> Seq<char> {
    Seq::new(
        36,
        |i: int|
            if i == 8 || i == 13 || i == 18 || i == 23 {
                '-'
            } else {
                hex_digit(nibble(v, digit_index(i)))
            },
    )
}

impl Uuid {
    /// A fresh random (version 4) identifier: `uuid::Uuid::new_v4`.
    #[verifier::external_body]
    pub(crate) fn new_v4() -> (r: Uuid) {
        Uuid(uuid::Uuid::new_v4().as_u128())
    }

    /// `uuid::Uuid::parse_str`: accepts the hyphenated, simple, braced and URN
    /// forms; the value it gives is named [`uuid_from_text`].
    #[verifier::external_body]
    pub(crate) fn parse_str(text: &str) -> (r: Option<Uuid>)
        ensures
            match uuid_from_text(text@) {
                Some(v) => r == Some(Uuid(v)),
                None => r is None,
            },
    {
        match uuid::Uuid::parse_str(text) {
            Ok(u) => Some(Uuid(u.as_u128())),
            Err(_) => None,
        }
    }

    /// The hyphenated lower-case text of the identifier (`uuid::Uuid`'s
    /// `Display`), e.g. `67e55044-10b1-426f-9247-bb680e5fe0c8`.
    #[verifier::external_body]
    pub(crate) fn hyphenated(&self) -> (r: String)
        ensures
            r@ == hyphenated_text(self.0),
    {
        uuid::Uuid::from_u128(self.0).hyphenated().to_string()
    }

    pub fn as_u128(&self) -> (r: u128)
        ensures
            r == self.0,
    {
        self.0
    }
}

/// A point in time (UTC): whole seconds since the Unix epoch and the
/// nanoseconds past them. The derived order is the order in time. Callers
/// read the clock and pass the time in.
#[derive(Clone, Copy, Debug, PartialEq, Eq, Structural, PartialOrd, Ord, Hash)]
pub struct Timestamp {
    pub secs: i64,
    pub nanos: u32,
}

} // verus!
