//! The pieces of the `http` crate that the handlers read: the header map of a
//! request and the validity rule of status codes.

use vstd::prelude::*;
use http::{HeaderMap, HeaderValue, StatusCode};

verus! {

/// `http::HeaderMap`, carried through as an opaque value.
#[verifier::external_type_specification]
#[verifier::external_body]
#[verifier::reject_recursive_types(T)]
pub struct ExHeaderMap<T>(HeaderMap<T>);

/// `http::HeaderValue`, carried through as an opaque value.
#[verifier::external_type_specification]
#[verifier::external_body]
pub struct ExHeaderValue(HeaderValue);

/// The bytes of the first value that `headers` holds under `name`, if it
/// holds any. Header names match without regard to case; that rule is the
/// map's own and is not restated here.
pub uninterp spec fn header_value(headers: HeaderMap, name: Seq<char>) -> Option<Seq<u8>>;

/// `HeaderMap::get` with a textual name, followed by `HeaderValue::as_bytes`:
/// hands out a copy of the bytes of the first value under `name`, or `None`
/// where the map holds no value under it (a text that is no valid header
/// name finds nothing). Believed, not proved.
#[verifier::external_body]
pub(crate) fn first_header(headers: &HeaderMap, name: &str) -> (value: Option<Vec<u8>>)
    ensures
        match value {
            Some(bytes) => header_value(*headers, name@) == Some(bytes@),
            None => header_value(*headers, name@).is_none(),
        },
{
    match headers.get(name) {
        Some(found) => Some(found.as_bytes().to_vec()),
        None => None,
    }
}

/// The status codes that can be sent: three decimal digits, the first not
/// zero.
pub open spec fn valid_status(code: int) -> bool {
    100 <= code <= 999
}

/// `StatusCode::from_u16` followed by `StatusCode::as_u16`: the code itself
/// where it lies between 100 and 999, `None` elsewhere. Believed, not proved.
#[verifier::external_body]
pub(crate) fn checked_status(code: u16) -> (status: Option<u16>)
    ensures
        status == if valid_status(code as int) {
            Some(code)
        } else {
            None
        },
{
    match StatusCode::from_u16(code) {
        Ok(status) => Some(status.as_u16()),
        Err(_) => None,
    }
}

} // verus!
