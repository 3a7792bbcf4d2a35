//! Configuration documents, read by the `rust-ini` crate.

use vstd::prelude::*;

verus! {

/// A parsed document of the `rust-ini` crate.
#[verifier::external_type_specification]
#[verifier::external_body]
pub struct ExIni(ini::Ini);

/// The error of the `rust-ini` crate's parser.
#[verifier::external_type_specification]
#[verifier::external_body]
pub struct ExIniParseError(ini::ParseError);

/// What a document holds for lookups by name: under the name of each named
/// section, the keys of the first section of that name, each with the first
/// value that the section holds under it.
pub uninterp spec fn ini_contents(doc: ini::Ini) -> Map<Seq<char>, Map<Seq<char>, Seq<char>>>;

/// What `ini::Ini::load_from_str` makes of a text, as a function of the text:
/// the contents of the document that it returns, or nothing where it refuses
/// the text.
pub uninterp spec fn ini_parse(text: Seq<char>) -> Option<Map<Seq<char>, Map<Seq<char>, Seq<char>>>>;

/// The value under a key of a named section, where the contents hold both.
pub open spec fn ini_value(
    contents: Map<Seq<char>, Map<Seq<char>, Seq<char>>>,
    section: Seq<char>,
    key: Seq<char>,
) -> Option<Seq<char>> {
    if contents.dom().contains(section) && contents[section].dom().contains(key) {
        Some(contents[section][key])
    } else {
        None
    }
}

/// Parses a text with `ini::Ini::load_from_str`. The document that comes back
/// holds what the parser makes of the text; an error comes back exactly
/// where the parser refuses the text.
#[verifier::external_body]
pub(crate) fn load(text: &str) -> (doc: Result<ini::Ini, ini::ParseError>)
    ensures
        match doc {
            Ok(d) => ini_parse(text@) == Some(ini_contents(d)),
            Err(_) => ini_parse(text@) is None,
        },
{
    ini::Ini::load_from_str(text)
}

/// Asks `ini::Ini::section` whether the document has a section of this name.
#[verifier::external_body]
pub(crate) fn has_section(doc: &ini::Ini, name: &str) -> (found: bool)
    ensures
        found == ini_contents(*doc).dom().contains(name@),
{
    doc.section(Some(name)).is_some()
}

/// Looks a key up with `ini::Ini::get_from`: the first value under the key in
/// the first section of the name, copied out, or nothing where the section or
/// the key is missing.
#[verifier::external_body]
pub(crate) fn value_of(doc: &ini::Ini, section: &str, key: &str) -> (value: Option<String>)
    ensures
        value.deep_view() == ini_value(ini_contents(*doc), section@, key@),
{
    doc.get_from(Some(section), key).map(|v| v.to_string())
}

/// Copies the message out of a parser error.
#[verifier::external_body]
pub(crate) fn message_of(error: &ini::ParseError) -> (message: String) {
    error.msg.to_string()
}

} // verus!
