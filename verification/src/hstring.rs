//! Trusted bridge to the bounded `heapless` strings in which the Wi-Fi
//! example stores what it scrapes out of a page.
//!
//! A `heapless::String<N>` holds at most `N` bytes of UTF-8 inline. The
//! verified code only ever builds one from a `&str` and reads it back;
//! the spec names the text a value holds with [`hstring_text`] and
//! [`hstring32_text`].

use vstd::prelude::*;
use vstd::string::StringSliceAdditionalSpecFns;

verus! {

#[verifier::external_type_specification]
#[verifier::external_body]
pub struct ExHeaplessString<const N: usize>(heapless::String<N>);

/// The text held by a `heapless::String<256>`.
pub uninterp spec fn hstring_text(s: heapless::String<256>) -> Seq<char>;

/// The text held by a `heapless::String<32>`.
pub uninterp spec fn hstring32_text(s: heapless::String<32>) -> Seq<char>;

/// Relies on `heapless::String::<256>::try_from(&str)`: it copies the
/// text whenever the UTF-8 encoding fits the 256-byte capacity, and
/// changes nothing else about it.
#[verifier::external_body]
pub(crate) fn hstring_from_str(s: &str) -> (copied: Option<heapless::String<256>>)
    ensures
        copied is Some <==> s.spec_bytes().len() <= 256,
        copied is Some ==> hstring_text(copied->Some_0) == s@,
{
    heapless::String::try_from(s).ok()
}

/// Relies on `heapless::String::<32>::try_from(&str)`: it copies the
/// text whenever the UTF-8 encoding fits the 32-byte capacity, and
/// changes nothing else about it.
#[verifier::external_body]
pub(crate) fn hstring32_from_str(s: &str) -> (copied: Option<heapless::String<32>>)
    ensures
        copied is Some <==> s.spec_bytes().len() <= 32,
        copied is Some ==> hstring32_text(copied->Some_0) == s@,
{
    heapless::String::try_from(s).ok()
}

/// Relies on `heapless::String::as_str`: it exposes the held text.
#[verifier::external_body]
pub(crate) fn hstring_as_str(s: &heapless::String<256>) -> (text: &str)
    ensures
        text@ == hstring_text(*s),
{
    s.as_str()
}

} // verus!
