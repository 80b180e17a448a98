//! Identifiers that nobody else has.
use vstd::prelude::*;

verus! {

/// A lower-case hexadecimal digit.
pub open spec fn is_hex(c: char) -> bool {
    '0' <= c <= '9' || 'a' <= c <= 'f'
}

/// A random identifier in its usual form: `xxxxxxxx-xxxx-4xxx-yxxx-xxxxxxxxxxxx`, where `y`
/// is one of `8`, `9`, `a` and `b`.
pub open spec fn is_unique_id(text: Seq<char>) -> bool {
    &&& text.len() == 36
    &&& forall|i: int|
        0 <= i < 36 ==> if i == 8 || i == 13 || i == 18 || i == 23 {
            #[trigger] text[i] == '-'
        } else {
            is_hex(text[i])
        }
    &&& text[14] == '4'
    &&& text[19] == '8' || text[19] == '9' || text[19] == 'a' || text[19] == 'b'
}

/// Draws an identifier with `uuid::Uuid::new_v4` and writes it by its `Display`. It has the
/// form of a version 4 identifier; which one it is, nothing says.
#[verifier::external_body]
pub(crate) fn draw() -> (id: String)
    ensures
        is_unique_id(id@),
{
    uuid::Uuid::new_v4().to_string()
}

/// Law: where the dashes and the version of an identifier stand, and that all else are digits.
pub proof fn law_unique_id_form(text: Seq<char>, i: int)
    requires
        is_unique_id(text),
        0 <= i < text.len(),
    ensures
        text.len() == 36,
        i == 8 || i == 13 || i == 18 || i == 23 <==> text[i] == '-',
        i == 14 ==> text[i] == '4',
        i == 19 ==> text[i] == '8' || text[i] == '9' || text[i] == 'a' || text[i] == 'b',
        text[i] == '-' || '0' <= text[i] <= '9' || 'a' <= text[i] <= 'f',
{
}

} // verus!
