//! Access to the header map of an HTTP response. The map and its values are
//! `hyper`'s; what they hold is named by specification functions, and the
//! calls into `hyper` are thin wrappers whose contracts restate its
//! documentation over those names. Verus takes these contracts on trust.

use hyper::header::{HeaderMap, HeaderValue, ToStrError};
use vstd::prelude::*;

verus! {

#[verifier::external_type_specification]
#[verifier::external_body]
#[verifier::reject_recursive_types(T)]
pub struct ExHeaderMap<T>(HeaderMap<T>);

#[verifier::external_type_specification]
#[verifier::external_body]
pub struct ExHeaderValue(HeaderValue);

#[verifier::external_type_specification]
#[verifier::external_body]
pub struct ExToStrError(ToStrError);

/// The bytes of the first value that a header map holds for each header
/// name that it answers to.
pub uninterp spec fn held(map: HeaderMap<HeaderValue>) -> Map<Seq<char>, Seq<u8>>;

/// The bytes of a header value.
pub uninterp spec fn value_bytes(value: HeaderValue) -> Seq<u8>;

/// Whether a byte is a visible ASCII character or a tab.
pub open spec fn visible(b: u8) -> bool {
    32 <= b < 127 || b == 9
}

/// Whether every byte is a visible ASCII character or a tab.
pub open spec fn all_visible(bytes: Seq<u8>) -> bool {
    forall|i: int| 0 <= i < bytes.len() ==> visible(#[trigger] bytes[i])
}

/// The text that ASCII bytes spell.
pub open spec fn spelled(bytes: Seq<u8>) -> Seq<char> {
    Seq::new(bytes.len(), |i: int| bytes[i] as char)
}

/// `HeaderMap::get`: the first value held for the name, if any is held.
#[verifier::external_body]
pub(crate) fn first_value<'a>(map: &'a HeaderMap<HeaderValue>, name: &str) -> (value: Option<
    &'a HeaderValue,
>)
    ensures
        value.is_some() == held(*map).contains_key(name@),
        value.is_some() ==> value_bytes(*value.unwrap()) == held(*map)[name@],
{
    map.get(name)
}

/// `HeaderValue::to_str`: the value as text, which it is where each of its
/// bytes is a visible ASCII character or a tab; an error where one is not.
#[verifier::external_body]
pub(crate) fn value_text<'a>(value: &'a HeaderValue) -> (text: Result<&'a str, ToStrError>)
    ensures
        text.is_ok() == all_visible(value_bytes(*value)),
        text.is_ok() ==> text.unwrap()@ == spelled(value_bytes(*value)),
{
    value.to_str()
}

/// `HeaderValue::as_bytes`: a copy of the value's bytes.
#[verifier::external_body]
pub(crate) fn value_copy(value: &HeaderValue) -> (bytes: Vec<u8>)
    ensures
        bytes@ == value_bytes(*value),
{
    value.as_bytes().to_vec()
}

} // verus!
