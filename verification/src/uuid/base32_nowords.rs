//! A base-32 alphabet for identifiers that are copied and pasted.
//!
//! The alphabet has no vowels and none of their lookalikes, so that an
//! identifier hardly ever spells a word; it leaves out the most frequent
//! consonants and their lookalikes for the same reason. What is left are
//! these 32 characters: `2689bdfghjkmpqwxyzBDFGHJKMPQWXYZ`.

use data_encoding::{Encoding, Specification};
use vstd::prelude::*;

verus! {

#[verifier::external_type_specification]
#[verifier::external_body]
pub struct ExEncoding(Encoding);

/// The symbols of the alphabet, in the order of their values.
pub const BASE32_NOWORDS: &'static str = "2689bdfghjkmpqwxyzBDFGHJKMPQWXYZ";

/// Whether a text is an alphabet for base 32: 32 ASCII characters, no two
/// of them the same.
pub open spec fn is_alphabet(symbols: Seq<char>) -> bool {
    &&& symbols.len() == 32
    &&& forall|i: int| 0 <= i < symbols.len() ==> ((#[trigger] symbols[i]) as u32) < 128
    &&& forall|i: int, j: int|
        0 <= i < j < symbols.len() ==> (#[trigger] symbols[i]) != (#[trigger] symbols[j])
}

/// The encoding that `data_encoding` builds from a list of symbols and
/// nothing else, where it accepts them.
pub uninterp spec fn encoding_of(symbols: Seq<char>) -> Encoding;

/// The 16 bytes of `id`, most significant first, as an encoding writes
/// them.
pub uninterp spec fn encoded(encoding: Encoding, id: u128) -> Seq<char>;

/// `Specification::encoding` on a specification with the given symbols and
/// everything else at its default. With nothing else set, it refuses the
/// symbols only for their number, for a character outside ASCII, or for a
/// character that occurs twice; so 32 distinct ASCII characters are
/// accepted. The encoding depends on the symbols alone.
#[verifier::external_body]
pub(crate) fn encoding_with(symbols: &str) -> (encoding: Option<Encoding>)
    ensures
        is_alphabet(symbols@) ==> encoding is Some,
        encoding matches Some(built) ==> built == encoding_of(symbols@),
{
    let mut specification = Specification::new();
    specification.symbols.push_str(symbols);
    match specification.encoding() {
        Ok(encoding) => Some(encoding),
        Err(_) => None,
    }
}

/// `Encoding::encode` on the 16 bytes of `id`, most significant first: the
/// text depends on the encoding and the number alone.
#[verifier::external_body]
pub(crate) fn encode_id(encoding: &Encoding, id: u128) -> (text: String)
    ensures
        text@ == encoded(*encoding, id),
{
    encoding.encode(&id.to_be_bytes())
}

/// The symbols of [`BASE32_NOWORDS`] are an alphabet.
pub proof fn lemma_base32_nowords_is_alphabet()
    ensures
        is_alphabet(BASE32_NOWORDS@),
{
    reveal_strlit("2689bdfghjkmpqwxyzBDFGHJKMPQWXYZ");
}

} // verus!
