//! Registration identifiers: UUIDs, held as their 128-bit value.
use vstd::prelude::*;

verus! {

/// What `Uuid::parse_str` gives for a string: the UUID's 128-bit value, or
/// the text of the parse error.
pub uninterp spec fn uuid_parse_result(s: Seq<char>) -> Result<u128, Seq<char>>;

/// `Uuid::parse_str`, as the UUID's `as_u128` value or the displayed error.
/// Which spellings it accepts is left to `uuid_parse_result`.
#[verifier::external_body]
pub(crate) fn parse_uuid(s: &str) -> (r: Result<u128, String>)
    ensures
        match r {
            Ok(v) => uuid_parse_result(s@) == Ok::<u128, Seq<char>>(v),
            Err(m) => uuid_parse_result(s@) == Err::<u128, Seq<char>>(m@),
        },
{
    match uuid::Uuid::parse_str(s) {
        Ok(u) => Ok(u.as_u128()),
        Err(e) => Err(e.to_string()),
    }
}

} // verus!
