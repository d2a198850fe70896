//! The few string operations of `str` that the parsers use, with what their
//! documentation promises stated over character sequences.
use vstd::prelude::*;

verus! {

/// The number of bytes of the UTF-8 encoding of `s` (what `str::len` counts).
pub open spec fn utf8_len(s: Seq<char>) -> nat {
    vstd::utf8::encode_utf8(s).len()
}

/// `str::strip_prefix` with a `&str` pattern: documented to give the rest of
/// `s` after `prefix` when `s` begins with `prefix`, and `None` otherwise.
#[verifier::external_body]
pub(crate) fn strip_prefix<'a>(s: &'a str, prefix: &str) -> (r: Option<&'a str>)
    ensures
        r is Some <==> prefix@.is_prefix_of(s@),
        r matches Some(rest) ==> rest@ == s@.skip(prefix@.len() as int),
{
    s.strip_prefix(prefix)
}

/// `str::split_once` with a `char` delimiter: documented to split `s` at the
/// first occurrence of `c`, giving what stands before it and what stands after
/// it, and `None` where `c` does not occur.
#[verifier::external_body]
pub(crate) fn split_once<'a>(s: &'a str, c: char) -> (r: Option<(&'a str, &'a str)>)
    ensures
        r is Some <==> s@.contains(c),
        r matches Some((before, after)) ==> (s@.index_of_first(c) matches Some(i) && before@
            == s@.take(i) && after@ == s@.skip(i + 1)),
{
    s.split_once(c)
}

/// `<str as PartialEq>::eq`: two strings are equal when they hold the same
/// characters.
#[verifier::external_body]
pub(crate) fn str_eq(a: &str, b: &str) -> (r: bool)
    ensures
        r == (a@ == b@),
{
    a == b
}

} // verus!
