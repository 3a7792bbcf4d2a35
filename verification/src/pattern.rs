//! Pattern matching and text decoding that are left to other code.

use vstd::prelude::*;
use vstd::string::StringSliceAdditionalSpecFns;
use vstd::utf8::valid_utf8;

verus! {

/// The error of the `regex` crate's pattern compiler.
#[verifier::external_type_specification]
#[verifier::external_body]
pub struct ExRegexError(regex::Error);

/// Whether `regex::Regex::new` accepts a pattern, as a function of the
/// pattern: it is well formed, and what it compiles to stays under the size
/// limit that the compiler has by default.
pub uninterp spec fn regex_compiles(pattern: Seq<char>) -> bool;

/// What `regex::Regex::captures` finds for a pattern in a text, as a function
/// of the two: nothing where the pattern matches nowhere, else the groups of
/// the match it reports, the whole match first and then each group of the
/// pattern in the order of its opening bracket. A group that took no part in
/// the match is absent.
pub uninterp spec fn regex_captures(pattern: Seq<char>, haystack: Seq<char>) -> Option<
    Seq<Option<Seq<char>>>,
>;

/// Compiles `pattern` with `regex::Regex::new` and searches `haystack` with
/// `regex::Regex::captures`. An error comes back exactly where the compiler
/// refuses the pattern, and it is the compiler's error. Where the pattern
/// compiles, the result is what that search finds: the groups in the order
/// in which `Captures::iter` hands them out, each copied out as text with
/// `Match::as_str`.
#[verifier::external_body]
pub(crate) fn captures(pattern: &str, haystack: &str) -> (found: Result<
    Option<Vec<Option<String>>>,
    regex::Error,
>)
    ensures
        (found is Ok) == regex_compiles(pattern@),
        found matches Ok(groups) ==> groups.deep_view() == regex_captures(pattern@, haystack@),
{
    let compiled = regex::Regex::new(pattern)?;
    Ok(
        compiled.captures(haystack).map(
            |groups| groups.iter().map(|group| group.map(|m| m.as_str().to_string())).collect(),
        ),
    )
}

/// Reads bytes as text with `core::str::from_utf8`: a text made of these very
/// bytes where they are well-formed UTF-8, nothing where they are not.
#[verifier::external_body]
pub(crate) fn text_of(bytes: &[u8]) -> (text: Option<&str>)
    ensures
        text.is_some() == valid_utf8(bytes@),
        text matches Some(s) ==> s.spec_bytes() == bytes@,
{
    core::str::from_utf8(bytes).ok()
}

} // verus!
