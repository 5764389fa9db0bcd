//! The ids that the service gives to new todos.

use vstd::prelude::*;

verus! {

/// One of the sixteen digits `0` to `9` and `a` to `f`.
pub open spec fn is_hex_digit(c: char) -> bool {
    ('0' <= c && c <= '9') || ('a' <= c && c <= 'f')
}

/// A hyphen stands at this position of an id.
pub open spec fn is_hyphen_position(i: int) -> bool {
    i == 8 || i == 13 || i == 18 || i == 23
}

/// The shape of a generated id: 36 characters, hyphens after the 8th, 12th,
/// 16th and 20th digit, lower-case hexadecimal digits everywhere else.
pub open spec fn is_generated_id(id: Seq<char>) -> bool {
    &&& id.len() == 36
    &&& forall|i: int|
        0 <= i < 36 ==> if is_hyphen_position(i) {
            #[trigger] id[i] == '-'
        } else {
            is_hex_digit(id[i])
        }
}

/// A new id, drawn at random.
///
/// Calls `Uuid::new_v4` of the crate `uuid` and writes the result out with the
/// type's `Display`. Trusted, not proved: that the text has the hyphenated
/// lower-case form, which is how that crate formats every id. Which id comes
/// back is left open; two calls need not agree.
#[verifier::external_body]
pub(crate) fn fresh_id() -> (id: String)
    ensures
        is_generated_id(id@),
{
    uuid::Uuid::new_v4().to_string()
}

} // verus!
