//! What the library takes on trust: the types of other crates that it carries around, and the few
//! functions of other crates and of `std` that it calls.
//!
//! Everything in this module is believed, not proved.  Each item says what is claimed of which
//! function.
use vstd::prelude::*;

verus! {

/// A compiled regular expression of the `regex` crate.
#[verifier::external_type_specification]
#[verifier::external_body]
pub struct ExRegex(regex::Regex);

/// The restrictions that `leucite` puts on a command.
#[verifier::external_type_specification]
#[verifier::external_body]
pub struct ExRules(leucite::Rules);

/// An amount of memory, as `leucite` counts it.
#[verifier::external_type_specification]
#[verifier::external_body]
pub struct ExMemorySize(leucite::MemorySize);

/// A path of the operating system.
#[verifier::external_type_specification]
#[verifier::external_body]
pub struct ExPathBuf(std::path::PathBuf);

/// An error of the operating system.
#[verifier::external_type_specification]
#[verifier::external_body]
pub struct ExIoError(std::io::Error);

/// The error of a task of the `tokio` runtime that did not run to its end.
#[verifier::external_type_specification]
#[verifier::external_body]
pub struct ExJoinError(tokio::task::JoinError);

/// What [`regex::Regex::is_match`] answers.
pub uninterp spec fn regex_matches(re: regex::Regex, haystack: Seq<char>) -> bool;

/// Calls [`regex::Regex::is_match`].  Its answer is a function of the expression and of the text,
/// named [`regex_matches`]; what regular expressions mean is not spelled out here.
#[verifier::external_body]
pub(crate) fn regex_is_match(re: &regex::Regex, haystack: &str) -> (b: bool)
    ensures
        b == regex_matches(*re, haystack@),
{
    re.is_match(haystack)
}

/// The clone of a [`regex::Regex`] is the same expression.
pub assume_specification[ <regex::Regex as Clone>::clone ](re: &regex::Regex) -> (r: regex::Regex)
    ensures
        r == *re,
;

/// The paths that a [`leucite::Rules`] opens for reading.
pub uninterp spec fn rules_read_only(rules: leucite::Rules) -> Seq<std::path::PathBuf>;

/// The paths that a [`leucite::Rules`] opens for reading and writing.
pub uninterp spec fn rules_read_write(rules: leucite::Rules) -> Seq<std::path::PathBuf>;

/// The paths that a [`leucite::Rules`] opens for writing.
pub uninterp spec fn rules_write_only(rules: leucite::Rules) -> Seq<std::path::PathBuf>;

/// The ports that a [`leucite::Rules`] lets a command bind to.
pub uninterp spec fn rules_bind_ports(rules: leucite::Rules) -> Seq<u16>;

/// The ports that a [`leucite::Rules`] lets a command connect to.
pub uninterp spec fn rules_connect_ports(rules: leucite::Rules) -> Seq<u16>;

/// Calls [`leucite::Rules::add_read_write`], which puts the path behind those that may be read and
/// written already and leaves everything else as it was.
#[verifier::external_body]
pub(crate) fn rules_add_read_write(rules: leucite::Rules, path: &std::path::PathBuf) -> (r:
    leucite::Rules)
    ensures
        rules_read_write(r) == rules_read_write(rules).push(*path),
        rules_read_only(r) == rules_read_only(rules),
        rules_write_only(r) == rules_write_only(rules),
        rules_bind_ports(r) == rules_bind_ports(rules),
        rules_connect_ports(r) == rules_connect_ports(rules),
{
    rules.add_read_write(path)
}

/// The clone of a [`leucite::Rules`] holds the same restrictions.
pub assume_specification[ <leucite::Rules as Clone>::clone ](rules: &leucite::Rules) -> (r:
    leucite::Rules)
    ensures
        r == *rules,
;

/// The clone of a [`std::path::PathBuf`] is the same path.
pub assume_specification[ <std::path::PathBuf as Clone>::clone ](path: &std::path::PathBuf) -> (r:
    std::path::PathBuf)
    ensures
        r == *path,
;

/// What `==` answers on two [`std::path::PathBuf`]s.
pub uninterp spec fn paths_equal(a: std::path::PathBuf, b: std::path::PathBuf) -> bool;

/// Compares two paths with `==` of [`std::path::PathBuf`].  The answer is a function of the two
/// paths, named [`paths_equal`]; how paths are taken apart to compare them is not spelled out here.
#[verifier::external_body]
pub(crate) fn path_equal(a: &std::path::PathBuf, b: &std::path::PathBuf) -> (r: bool)
    ensures
        r == paths_equal(*a, *b),
{
    a == b
}

/// What [`std::path::Path::to_str`] makes of a path: its text, or `None` if it is no valid Unicode.
pub uninterp spec fn path_text(path: std::path::PathBuf) -> Option<Seq<char>>;

/// Calls [`std::path::Path::to_str`].  The text is a function of the path, named [`path_text`].
#[verifier::external_body]
pub(crate) fn path_to_str<'a>(path: &'a std::path::PathBuf) -> (r: Option<&'a str>)
    ensures
        r is Some <==> path_text(*path) is Some,
        r matches Some(text) ==> path_text(*path) == Some(text@),
{
    path.to_str()
}

/// The path that [`std::path::PathBuf::from`] makes of a text.
pub uninterp spec fn path_of_text(text: Seq<char>) -> std::path::PathBuf;

/// Calls [`std::path::PathBuf::from`] on a text.  The path is a function of the text, named
/// [`path_of_text`], and its text is that text.
#[verifier::external_body]
pub(crate) fn path_from_str(text: &str) -> (r: std::path::PathBuf)
    ensures
        r == path_of_text(text@),
        path_text(r) == Some(text@),
{
    std::path::PathBuf::from(text)
}

/// What [`std::path::Path::strip_prefix`] leaves of a path, or `None` if the path does not start with
/// the prefix.
pub uninterp spec fn path_without_prefix(path: std::path::PathBuf, prefix: Seq<char>) -> Option<
    std::path::PathBuf,
>;

/// Calls [`std::path::Path::strip_prefix`].  The result is a function of the path and of the prefix,
/// named [`path_without_prefix`]; how paths are taken apart is not spelled out here.
#[verifier::external_body]
pub(crate) fn path_strip_prefix(path: &std::path::PathBuf, prefix: &str) -> (r: Option<
    std::path::PathBuf,
>)
    ensures
        r == path_without_prefix(*path, prefix@),
{
    path.strip_prefix(prefix).ok().map(std::path::Path::to_path_buf)
}

/// What [`std::path::Path::join`] makes of two paths.
pub uninterp spec fn joined_path(directory: std::path::PathBuf, path: std::path::PathBuf) ->
    std::path::PathBuf;

/// Calls [`std::path::Path::join`].  The result is a function of the two paths, named
/// [`joined_path`].
#[verifier::external_body]
pub(crate) fn path_join(directory: &std::path::PathBuf, path: &std::path::PathBuf) -> (r:
    std::path::PathBuf)
    ensures
        r == joined_path(*directory, *path),
{
    directory.join(path)
}

/// `==` on `()` answers that the two are equal: there is only one value to compare.
pub assume_specification[ <() as PartialEq>::eq ](a: &(), b: &()) -> (r: bool)
    ensures
        r,
;

/// `String::from` of a `&str` is a string with the same text.
pub assume_specification<'a>[ <std::string::String as From<&'a str>>::from ](text: &str) -> (r:
    std::string::String)
    ensures
        r@ == text@,
;

/// `From::from` of a type to itself gives its argument back.
pub assume_specification<Item>[ <Item as From<Item>>::from ](value: Item) -> (r: Item)
    ensures
        r == value,
;

/// Whether the kind of a [`std::io::Error`] is [`std::io::ErrorKind::BrokenPipe`].
pub uninterp spec fn is_broken_pipe(error: std::io::Error) -> bool;

/// Compares [`std::io::Error::kind`] with [`std::io::ErrorKind::BrokenPipe`].  The answer is a
/// function of the error, named [`is_broken_pipe`]; which errors the operating system reports when is
/// not spelled out here.
#[verifier::external_body]
pub(crate) fn broken_pipe(error: &std::io::Error) -> (r: bool)
    ensures
        r == is_broken_pipe(*error),
{
    error.kind() == std::io::ErrorKind::BrokenPipe
}

/// Calls [`std::str::from_utf8`], which succeeds exactly on valid UTF-8 and then gives the text
/// that the bytes encode.
#[verifier::external_body]
pub(crate) fn str_from_utf8<'a>(bytes: &'a [u8]) -> (r: Option<&'a str>)
    ensures
        r is Some <==> vstd::utf8::valid_utf8(bytes@),
        r matches Some(s) ==> s@ == vstd::utf8::decode_utf8(bytes@),
{
    std::str::from_utf8(bytes).ok()
}

/// What [`String::from_utf8_lossy`] makes of some bytes.
pub uninterp spec fn lossy_text(bytes: Seq<u8>) -> Seq<char>;

/// Calls [`String::from_utf8_lossy`].  On valid UTF-8 it gives the text that the bytes encode;
/// on other bytes the result is named [`lossy_text`], and where the replacement characters go is
/// not spelled out here.
#[verifier::external_body]
pub(crate) fn string_from_utf8_lossy(bytes: &[u8]) -> (r: String)
    ensures
        r@ == lossy_text(bytes@),
        vstd::utf8::valid_utf8(bytes@) ==> r@ == vstd::utf8::decode_utf8(bytes@),
{
    String::from_utf8_lossy(bytes).into_owned()
}

} // verus!
