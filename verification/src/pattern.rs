//! File-name patterns: regular expressions compiled and matched by the
//! `regex` crate.

use vstd::prelude::*;
use crate::settings::SettingsError;

verus! {

/// `regex::Regex`, declared so that a pattern can hold one. Nothing of its
/// inside is known here.
#[verifier::external_type_specification]
#[verifier::external_body]
pub struct ExRegex(regex::Regex);

/// `regex::Error`, declared so that it can be handed on. Nothing of its
/// inside is known here.
#[verifier::external_type_specification]
#[verifier::external_body]
pub struct ExRegexError(regex::Error);

/// A compiled file-name pattern.
#[derive(Debug)]
pub struct FilePattern {
    regex: regex::Regex,
}

/// The text that a pattern was compiled from, as `regex::Regex::as_str`
/// gives it.
pub uninterp spec fn pattern_text(pattern: FilePattern) -> Seq<char>;

/// Whether `regex::Regex::new` accepts `text` as a regular expression.
pub uninterp spec fn pattern_compiles(text: Seq<char>) -> bool;

/// Whether `regex::Regex::is_match` finds a match of the expression `text`
/// anywhere in `name`.
pub uninterp spec fn pattern_accepts(text: Seq<char>, name: Seq<char>) -> bool;

impl View for FilePattern {
    type V = Seq<char>;

    /// The text of the pattern.
    open spec fn view(&self) -> Seq<char> {
        pattern_text(*self)
    }
}

/// Calls `regex::Regex::new`. Trusted: whether the text compiles is a
/// function of the text alone, and the compiled expression keeps the text it
/// was made from.
#[verifier::external_body]
fn compile(text: &str) -> (compiled: Result<FilePattern, regex::Error>)
    ensures
        match compiled {
            Ok(pattern) => pattern_compiles(text@) && pattern_text(pattern) == text@,
            Err(_) => !pattern_compiles(text@),
        },
{
    match regex::Regex::new(text) {
        Ok(regex) => Ok(FilePattern { regex }),
        Err(e) => Err(e),
    }
}

/// Calls `regex::Regex::is_match`. Trusted: the answer is a function of the
/// expression's text and the haystack alone.
#[verifier::external_body]
fn regex_is_match(pattern: &FilePattern, name: &str) -> (found: bool)
    ensures
        found == pattern_accepts(pattern_text(*pattern), name@),
{
    pattern.regex.is_match(name)
}

/// Calls `regex::Regex::as_str`.
#[verifier::external_body]
fn regex_as_str(pattern: &FilePattern) -> (text: &str)
    ensures
        text@ == pattern_text(*pattern),
{
    pattern.regex.as_str()
}

impl FilePattern {
    /// Compiles `text` into a pattern. Fails exactly where the text is no
    /// regular expression that the `regex` crate accepts.
    pub fn new(text: &str) -> (compiled: Result<FilePattern, SettingsError>)
        ensures
            match compiled {
                Ok(pattern) => pattern_compiles(text@) && pattern@ == text@,
                Err(e) => e == SettingsError::InvalidPattern && !pattern_compiles(text@),
            },
    {
        match compile(text) {
            Ok(pattern) => Ok(pattern),
            Err(_) => Err(SettingsError::InvalidPattern),
        }
    }

    /// Whether the pattern matches somewhere in `name`.
    pub fn is_match(&self, name: &str) -> (found: bool)
        ensures
            found == pattern_accepts(self@, name@),
    {
        regex_is_match(self, name)
    }

    /// The text of the pattern.
    pub fn as_str(&self) -> (text: &str)
        ensures
            text@ == self@,
    {
        regex_as_str(self)
    }
}

} // verus!
