//! Identifiers that no two senders share.

use vstd::prelude::*;

verus! {

/// The length of the text of an identifier.
pub const ID_LENGTH: usize = 36;

/// Whether `c` is a hexadecimal digit in lower case.
pub open spec fn is_lower_hex(c: char) -> bool {
    ('0' <= c <= '9') || ('a' <= c <= 'f')
}

/// Whether `text` has the form of an identifier: 32 hexadecimal digits in
/// lower case, in groups of 8, 4, 4, 4 and 12 with a hyphen between
/// neighbours.
pub open spec fn is_identifier(text: Seq<char>) -> bool {
    &&& text.len() == ID_LENGTH
    &&& forall|i: int|
        0 <= i < text.len() ==> if i == 8 || i == 13 || i == 18 || i == 23 {
            text[i] == '-'
        } else {
            is_lower_hex(#[trigger] text[i])
        }
}

/// A new random identifier, as `uuid::Uuid::new_v4` draws it and the `Display`
/// of `uuid::Uuid` writes it. Which identifier comes out is left open: the
/// contract states its form alone, which is the hyphenated one. The call
/// does not return where the system hands out no random bytes.
#[verifier::external_body]
pub(crate) fn random_id() -> (id: String)
    ensures
        is_identifier(id@),
{
    uuid::Uuid::new_v4().to_string()
}

} // verus!
