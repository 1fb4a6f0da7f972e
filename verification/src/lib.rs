//! A fluent builder for regular-expression pattern strings.
//!
//! An [`EasyRegex`] value owns the pattern accumulated so far; every chained
//! operation consumes it, decorates or wraps a new fragment according to a
//! [`settings::Settings`] or [`settings::GroupSettings`] record, validates the
//! record for conflicting options, and returns the extended pattern (or the
//! matching [`errors::ValidationError`]). The finished string can be handed to
//! the `regex` crate through [`EasyRegex::get_regex`].

use vstd::prelude::*;

pub mod collection;
pub mod errors;
pub mod group;
pub mod head_or_tail;
pub mod helpers;
pub mod laws;
pub mod list;
pub mod literal;
pub mod metacharacters;
pub mod presets;
pub mod segment;
pub mod settings;

verus! {

/// The pattern accumulated so far by a chain of builder operations.
///
/// Its view is the sequence of characters of the accumulated pattern.
#[derive(Debug, Clone)]
pub struct EasyRegex(pub String);

impl View for EasyRegex {
    type V = Seq<char>;

    open spec fn view(&self) -> Seq<char> {
        self.0@
    }
}

impl EasyRegex {
    /// Creates an `EasyRegex` instance holding an initial raw pattern.
    pub fn new(raw: &str) -> (result: Self)
        ensures
            result@ == raw@,
    {
        EasyRegex(raw.to_owned())
    }

    /// Creates an empty `EasyRegex` instance, useful for the start of a pattern.
    pub fn new_section() -> (result: Self)
        ensures
            result@ == Seq::<char>::empty(),
    {
        EasyRegex(String::new())
    }

    /// Borrows the accumulated pattern string.
    pub fn as_str(&self) -> (result: &str)
        ensures
            result@ == self@,
    {
        self.0.as_str()
    }

    /// Compiles the accumulated pattern with the external regex engine.
    ///
    /// Relies on `regex::RegexBuilder::new` and `regex::RegexBuilder::build`:
    /// whether the pattern compiles, and to what, is decided entirely by the
    /// engine; this library promises nothing about the outcome.
    #[verifier::external_body]
    pub fn get_regex(self) -> Result<regex::Regex, regex::Error> {
        let builder = regex::RegexBuilder::new(&self.0);
        builder.build()
    }
}

/// The compiled-pattern type of the external regex engine, opaque to this
/// library.
#[verifier::external_type_specification]
#[verifier::external_body]
pub struct ExRegex(regex::Regex);

/// The error type of the external regex engine, opaque to this library.
#[verifier::external_type_specification]
#[verifier::external_body]
pub struct ExRegexError(regex::Error);

} // verus!
