//! Convenience operations appending character-class metacharacters.
//!
//! Each one delegates to [`EasyRegex::literal`] with a fixed metacharacter
//! fragment, so the settings record is validated exactly as for a literal.

use vstd::prelude::*;
use crate::EasyRegex;
use crate::errors::ValidationError;
use crate::segment::{segment_chars, settings_error};
use crate::settings::Settings;

verus! {

impl EasyRegex {
    /// Appends the `\w` metacharacter, which matches any word character.
    pub fn word(self, settings: Settings) -> (result: Result<EasyRegex, ValidationError>)
        ensures
            (match result {
                Ok(built) => settings_error(settings) is None && built@ == self@ + segment_chars(
                    "\\w"@,
                    settings,
                ),
                Err(e) => settings_error(settings) == Some(e),
            }),
    {
        self.literal("\\w", &settings)
    }

    /// Appends the `\W` metacharacter, which matches any non-word character.
    pub fn non_word(self, settings: Settings) -> (result: Result<EasyRegex, ValidationError>)
        ensures
            (match result {
                Ok(built) => settings_error(settings) is None && built@ == self@ + segment_chars(
                    "\\W"@,
                    settings,
                ),
                Err(e) => settings_error(settings) == Some(e),
            }),
    {
        self.literal("\\W", &settings)
    }

    /// Appends the `\d` metacharacter, which matches any digit character.
    pub fn digit(self, settings: Settings) -> (result: Result<EasyRegex, ValidationError>)
        ensures
            (match result {
                Ok(built) => settings_error(settings) is None && built@ == self@ + segment_chars(
                    "\\d"@,
                    settings,
                ),
                Err(e) => settings_error(settings) == Some(e),
            }),
    {
        self.literal("\\d", &settings)
    }

    /// Appends the `\D` metacharacter, which matches any non-digit character.
    pub fn non_digit(self, settings: Settings) -> (result: Result<EasyRegex, ValidationError>)
        ensures
            (match result {
                Ok(built) => settings_error(settings) is None && built@ == self@ + segment_chars(
                    "\\D"@,
                    settings,
                ),
                Err(e) => settings_error(settings) == Some(e),
            }),
    {
        self.literal("\\D", &settings)
    }

    /// Appends the `\s` metacharacter, which matches any whitespace
    /// character.
    pub fn whitespace(self, settings: Settings) -> (result: Result<EasyRegex, ValidationError>)
        ensures
            (match result {
                Ok(built) => settings_error(settings) is None && built@ == self@ + segment_chars(
                    "\\s"@,
                    settings,
                ),
                Err(e) => settings_error(settings) == Some(e),
            }),
    {
        self.literal("\\s", &settings)
    }

    /// Appends the `\S` metacharacter, which matches any non-whitespace
    /// character.
    pub fn non_whitespace(self, settings: Settings) -> (result: Result<EasyRegex, ValidationError>)
        ensures
            (match result {
                Ok(built) => settings_error(settings) is None && built@ == self@ + segment_chars(
                    "\\S"@,
                    settings,
                ),
                Err(e) => settings_error(settings) == Some(e),
            }),
    {
        self.literal("\\S", &settings)
    }
}

} // verus!
