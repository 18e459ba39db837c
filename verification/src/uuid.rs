//! Identifiers of users and requests.

use self::base32_nowords::{
    encode_id, encoded, encoding_of, encoding_with, lemma_base32_nowords_is_alphabet,
    BASE32_NOWORDS,
};
use vstd::prelude::*;

pub mod base32_nowords;

verus! {

/// A 128-bit identifier. Fresh ones are version 7 UUIDs, which sort by the
/// time they were made.
#[derive(Debug, Clone, Copy, PartialEq, Eq, Structural, PartialOrd, Ord, Hash)]
pub struct Uuid(pub u128);

impl Default for Uuid {
    fn default() -> (id: Self)
        ensures
            id == Uuid(0),
    {
        Uuid(0)
    }
}

impl Uuid {
    /// Whether the identifier has the layout of a UUID of version 7: the
    /// four bits after the 48 bits of the time say 7, and the two bits at
    /// the head of the second half say that the layout is the standard one.
    pub open spec fn is_version_7(&self) -> bool {
        (self.0 >> 76) & 0xf == 7 && (self.0 >> 62) & 0x3 == 2
    }

    /// `uuid7::uuid7`, as a number. Whatever the clock and the random source
    /// give, `uuid7` lays the result out as a UUID of version 7; nothing
    /// else is known of it beforehand.
    #[verifier::external_body]
    pub fn new() -> (id: Self)
        ensures
            id.is_version_7(),
    {
        Uuid(u128::from(uuid7::uuid7()))
    }

    /// The identifier as text, in the alphabet [`BASE32_NOWORDS`].
    pub fn encode(&self) -> (text: String)
        ensures
            text@ == encoded(encoding_of(BASE32_NOWORDS@), self.0),
    {
        proof {
            lemma_base32_nowords_is_alphabet();
        }
        match encoding_with(BASE32_NOWORDS) {
            Some(encoding) => encode_id(&encoding, self.0),
            None => String::new(),
        }
    }
}

/// The identifier of one request.
#[derive(Debug, Clone, Copy, PartialEq, Eq, Structural, PartialOrd, Ord, Hash)]
pub struct RequestId(pub Uuid);

impl Default for RequestId {
    fn default() -> (id: Self)
        ensures
            id == RequestId(Uuid(0)),
    {
        RequestId(Uuid(0))
    }
}

impl RequestId {
    /// A fresh identifier: a UUID of version 7 made now.
    pub fn new() -> (id: Self)
        ensures
            id.0.is_version_7(),
    {
        RequestId(Uuid::new())
    }
}

/// The identifier of one user.
#[derive(Debug, Clone, Copy, PartialEq, Eq, Structural, PartialOrd, Ord, Hash)]
pub struct UserId(pub Uuid);

impl Default for UserId {
    fn default() -> (id: Self)
        ensures
            id == UserId(Uuid(0)),
    {
        UserId(Uuid(0))
    }
}

impl UserId {
    /// A fresh identifier: a UUID of version 7 made now.
    pub fn new() -> (id: Self)
        ensures
            id.0.is_version_7(),
    {
        UserId(Uuid::new())
    }
}

} // verus!
