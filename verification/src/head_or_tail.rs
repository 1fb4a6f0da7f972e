//! Anchors, alternation and flag starters.
//!
//! These operations start a chain or extend its tail unconditionally: they
//! take no settings record, so there is nothing to validate and they cannot
//! fail.

use vstd::prelude::*;
use crate::EasyRegex;

verus! {

impl EasyRegex {
    /// Creates an `EasyRegex` instance starting with the `^` anchor, which
    /// asserts position at the start of a line.
    pub fn start_of_line() -> (result: Self)
        ensures
            result@ == "^"@,
    {
        EasyRegex("^".to_owned())
    }

    /// Creates an `EasyRegex` instance starting with the `\A` anchor, which
    /// asserts position at the start of the text.
    pub fn only_the_beginning() -> (result: Self)
        ensures
            result@ == "\\A"@,
    {
        EasyRegex("\\A".to_owned())
    }

    /// Creates an `EasyRegex` instance starting with the `(?i)` flag.
    pub fn insensitive() -> (result: Self)
        ensures
            result@ == "(?i)"@,
    {
        EasyRegex("(?i)".to_owned())
    }

    /// Creates an `EasyRegex` instance starting with the `(?m)` flag.
    pub fn multiline() -> (result: Self)
        ensures
            result@ == "(?m)"@,
    {
        EasyRegex("(?m)".to_owned())
    }

    /// Creates an `EasyRegex` instance starting with the `(?s)` flag.
    pub fn dot_match_newline() -> (result: Self)
        ensures
            result@ == "(?s)"@,
    {
        EasyRegex("(?s)".to_owned())
    }

    /// Creates an `EasyRegex` instance starting with the `(?x)` flag.
    pub fn ignore_whitespace() -> (result: Self)
        ensures
            result@ == "(?x)"@,
    {
        EasyRegex("(?x)".to_owned())
    }

    /// Adds the alternation symbol `|` to the accumulated pattern.
    pub fn or(self) -> (result: Self)
        ensures
            result@ == self@ + "|"@,
    {
        let mut accumulated = self.0;
        accumulated.append("|");
        EasyRegex(accumulated)
    }

    /// Appends a negated character class `[^...]` holding `expression`.
    pub fn not(self, expression: &str) -> (result: Self)
        ensures
            result@ == self@ + "[^"@ + expression@ + "]"@,
    {
        let mut accumulated = self.0;
        accumulated.append("[^");
        accumulated.append(expression);
        accumulated.append("]");
        proof {
            assert(accumulated@ =~= self@ + "[^"@ + expression@ + "]"@);
        }
        EasyRegex(accumulated)
    }

    /// Adds the `$` anchor, which asserts position at the end of a line.
    pub fn end_of_line(self) -> (result: Self)
        ensures
            result@ == self@ + "$"@,
    {
        let mut accumulated = self.0;
        accumulated.append("$");
        EasyRegex(accumulated)
    }

    /// Adds the `\z` anchor, which asserts position at the end of the text.
    pub fn only_the_end(self) -> (result: Self)
        ensures
            result@ == self@ + "\\z"@,
    {
        let mut accumulated = self.0;
        accumulated.append("\\z");
        EasyRegex(accumulated)
    }

    /// Adds the `\b` anchor, which asserts position at a word boundary.
    pub fn word_boundary(self) -> (result: Self)
        ensures
            result@ == self@ + "\\b"@,
    {
        let mut accumulated = self.0;
        accumulated.append("\\b");
        EasyRegex(accumulated)
    }

    /// Adds the `\B` anchor, which asserts position anywhere but at a word
    /// boundary.
    pub fn non_word_boundary(self) -> (result: Self)
        ensures
            result@ == self@ + "\\B"@,
    {
        let mut accumulated = self.0;
        accumulated.append("\\B");
        EasyRegex(accumulated)
    }
}

} // verus!
