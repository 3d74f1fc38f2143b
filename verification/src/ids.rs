//! Random identifiers for connections and spores.

use vstd::prelude::*;

verus! {

/// How many symbols an identifier has.
pub const ID_LENGTH: usize = 21;

/// The symbols of an identifier: letters, digits, underscore and hyphen.
pub open spec fn is_id_symbol(c: char) -> bool {
    ||| 'a' <= c <= 'z'
    ||| 'A' <= c <= 'Z'
    ||| '0' <= c <= '9'
    ||| c == '_'
    ||| c == '-'
}

/// The shape of every generated identifier.
pub open spec fn is_id_text(text: Seq<char>) -> bool {
    &&& text.len() == ID_LENGTH
    &&& forall|i: int| 0 <= i < text.len() ==> is_id_symbol(#[trigger] text[i])
}

/// `nanoid::format` with the generator `nanoid::rngs::default`, the alphabet
/// `nanoid::alphabet::SAFE` and the size 21, which is what `nanoid!()` stands
/// for: twenty-one symbols of that alphabet, drawn from the system's random
/// source. Which symbols is not determined.
#[verifier::external_body]
pub(crate) fn fresh_id() -> (id: String)
    ensures
        is_id_text(id@),
{
    nanoid::format(nanoid::rngs::default, &nanoid::alphabet::SAFE, 21)
}

} // verus!
