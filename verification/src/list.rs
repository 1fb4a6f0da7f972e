//! Wrapping fragments in a character class `[...]`.
//!
//! The class brackets are applied before decoration, so quantifiers and
//! boundaries attach to the whole class, not to the characters inside it.

use vstd::prelude::*;
use crate::EasyRegex;
use crate::errors::ValidationError;
use crate::segment::{format_segment, segment_chars, settings_error};
use crate::settings::Settings;

verus! {

/// A fragment wrapped in character-class brackets.
pub open spec fn list_chars(expression: Seq<char>) -> Seq<char> {
    "["@ + expression + "]"@
}

fn bracketed(expression: &str) -> (result: String)
    ensures
        result@ == list_chars(expression@),
{
    let mut wrapped = "[".to_owned();
    wrapped.append(expression);
    wrapped.append("]");
    proof {
        assert(wrapped@ =~= list_chars(expression@));
    }
    wrapped
}

impl EasyRegex {
    /// Appends `expression` wrapped in `[...]` and decorated according to
    /// `settings`, to the accumulated pattern.
    pub fn list(self, expression: &str, settings: &Settings) -> (result: Result<
        EasyRegex,
        ValidationError,
    >)
        ensures
            (match result {
                Ok(built) => settings_error(*settings) is None && built@ == self@ + segment_chars(
                    list_chars(expression@),
                    *settings,
                ),
                Err(e) => settings_error(*settings) == Some(e),
            }),
    {
        let wrapped = bracketed(expression);
        self.literal(wrapped.as_str(), settings)
    }

    /// Turns the whole accumulated pattern into a character class, decorated
    /// according to `settings`.
    pub fn into_list(self, settings: &Settings) -> (result: Result<EasyRegex, ValidationError>)
        ensures
            (match result {
                Ok(built) => settings_error(*settings) is None && built@ == segment_chars(
                    list_chars(self@),
                    *settings,
                ),
                Err(e) => settings_error(*settings) == Some(e),
            }),
    {
        let wrapped = bracketed(self.0.as_str());
        match format_segment(wrapped.as_str(), settings) {
            Ok(formatted) => Ok(EasyRegex(formatted)),
            Err(e) => Err(e),
        }
    }
}

} // verus!
