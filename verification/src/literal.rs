//! Appending a literal fragment to the accumulated pattern.

use vstd::prelude::*;
use crate::EasyRegex;
use crate::errors::ValidationError;
use crate::segment::{format_segment, segment_chars, settings_error};
use crate::settings::Settings;

verus! {

impl EasyRegex {
    /// Appends `expression`, decorated according to `settings`, to the
    /// accumulated pattern.
    ///
    /// Conflicting quantifier options are rejected with the matching error
    /// before any output is produced.
    pub fn literal(self, expression: &str, settings: &Settings) -> (result: Result<
        EasyRegex,
        ValidationError,
    >)
        ensures
            (match result {
                Ok(built) => settings_error(*settings) is None && built@ == self@ + segment_chars(
                    expression@,
                    *settings,
                ),
                Err(e) => settings_error(*settings) == Some(e),
            }),
    {
        match format_segment(expression, settings) {
            Ok(formatted) => {
                let mut accumulated = self.0;
                accumulated.append(formatted.as_str());
                Ok(EasyRegex(accumulated))
            },
            Err(e) => Err(e),
        }
    }
}

} // verus!
