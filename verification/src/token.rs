//! Fresh identifiers for new games.

use vstd::prelude::*;

verus! {

/// Whether `c` is a hexadecimal digit in lower case.
pub open spec fn is_lower_hex(c: char) -> bool {
    ('0' <= c && c <= '9') || ('a' <= c && c <= 'f')
}

/// Whether `text` has the form of a random UUID written in lower case with
/// hyphens: 36 characters in groups of 8, 4, 4, 4 and 12 hexadecimal digits,
/// of which the third group starts with the version digit `4` and the fourth
/// with one of `8`, `9`, `a` and `b`.
pub open spec fn is_token(text: Seq<char>) -> bool {
    &&& text.len() == 36
    &&& forall|i: int|
        0 <= i < 36 ==> if i == 8 || i == 13 || i == 18 || i == 23 {
            #[trigger] text[i] == '-'
        } else {
            is_lower_hex(text[i])
        }
    &&& text[14] == '4'
    &&& text[19] == '8' || text[19] == '9' || text[19] == 'a' || text[19] == 'b'
}

/// A fresh random identifier, from `uuid::Uuid::new_v4` and the `Display`
/// form of the `Uuid` that it returns. Believed of it, not proved: the text
/// has the form of a random UUID in lower case with hyphens. Nothing is
/// claimed of which digits it holds, since they are drawn at random. The call
/// fails only where the operating system cannot supply random bytes.
#[verifier::external_body]
pub(crate) fn fresh_token() -> (token: String)
    ensures
        is_token(token@),
{
    uuid::Uuid::new_v4().to_string()
}

} // verus!
