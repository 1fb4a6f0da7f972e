//! Wrapping fragments in groups.
//!
//! A group operation validates its [`GroupSettings`] first: a non-capturing
//! group cannot also be a lookahead, the two lookahead modes exclude each
//! other, and a lookahead cannot be marked optional. On success the fragment
//! is wrapped in the delimiter of its capture mode, with the inline flag
//! token placed inside the group, and the wrapped fragment is then decorated
//! by the segment formatter with the remaining (non-flag) settings.

use vstd::prelude::*;
use crate::EasyRegex;
use crate::errors::ValidationError;
use crate::segment::{format_segment, segment_chars, settings_error};
use crate::settings::{Flags, GroupSettings, Settings, flag_chars};

verus! {

/// The first conflict among the capture-mode options of a group settings
/// record, if any.
pub open spec fn group_mode_error(g: GroupSettings) -> Option<ValidationError> {
    if g.is_non_capture && (g.is_positive_lookahead || g.is_negative_lookahead) {
        Some(ValidationError::InvalidGroupMode)
    } else if g.is_positive_lookahead && g.is_negative_lookahead {
        Some(ValidationError::ConflictingLookaheadModes)
    } else if (g.is_positive_lookahead || g.is_negative_lookahead) && (g.other.is_optional
        || g.other.is_optional_ungreedy) {
        Some(ValidationError::QuantifiedLookahead)
    } else {
        None
    }
}

/// The first conflict in a group settings record: capture-mode conflicts are
/// reported before quantifier conflicts of the inner settings.
pub open spec fn group_error(g: GroupSettings) -> Option<ValidationError> {
    match group_mode_error(g) {
        Some(e) => Some(e),
        None => settings_error(g.other),
    }
}

/// A fragment with the inline flag token prefixed inside its group, if a
/// flag is set.
pub open spec fn flagged_chars(expression: Seq<char>, flags: Option<Flags>) -> Seq<char> {
    match flags {
        Some(f) => "("@ + flag_chars(f) + ")"@ + expression,
        None => expression,
    }
}

/// A fragment wrapped in the delimiter of its capture mode: `(...)` for a
/// capturing group, `(?:...)` for a non-capturing group (`(?<flag>:...)`
/// when a flag is set), `(?=...)` for a positive and `(?!...)` for a
/// negative lookahead. For every mode but the flagged non-capturing form,
/// the flag token stands right after the opening delimiter.
pub open spec fn group_wrap_chars(expression: Seq<char>, g: GroupSettings) -> Seq<char> {
    if g.is_non_capture {
        match g.other.flags {
            Some(f) => "("@ + flag_chars(f) + ":"@ + expression + ")"@,
            None => "(?:"@ + expression + ")"@,
        }
    } else if g.is_positive_lookahead {
        "(?="@ + flagged_chars(expression, g.other.flags) + ")"@
    } else if g.is_negative_lookahead {
        "(?!"@ + flagged_chars(expression, g.other.flags) + ")"@
    } else {
        "("@ + flagged_chars(expression, g.other.flags) + ")"@
    }
}

/// A settings record with the flag cleared; the flag of a group is emitted
/// inside the wrapper, not by the outer decoration pass.
pub open spec fn strip_flags(s: Settings) -> Settings {
    Settings { flags: None, ..s }
}

/// The full contribution of a group operation: the wrapped fragment,
/// decorated with the remaining non-flag settings.
pub open spec fn group_chars(expression: Seq<char>, g: GroupSettings) -> Seq<char> {
    segment_chars(group_wrap_chars(expression, g), strip_flags(g.other))
}

/// A named-capture header injected before a fragment, as handed to the
/// capturing-group wrapper.
pub open spec fn named_chars(name: Seq<char>, expression: Seq<char>) -> Seq<char> {
    "?P<"@ + name + ">"@ + expression
}

/// The accumulated pattern wrapped as a plain capturing group.
pub open spec fn paren_chars(inner: Seq<char>) -> Seq<char> {
    "("@ + inner + ")"@
}

/// The accumulated pattern wrapped as a named capturing group.
pub open spec fn named_paren_chars(name: Seq<char>, inner: Seq<char>) -> Seq<char> {
    "(?P<"@ + name + ">"@ + inner + ")"@
}

/// Checks the capture-mode options of a group settings record for conflicts.
pub fn validate_group(group_settings: &GroupSettings) -> (result: Option<ValidationError>)
    ensures
        result == group_mode_error(*group_settings),
{
    if group_settings.is_non_capture && (group_settings.is_positive_lookahead
        || group_settings.is_negative_lookahead) {
        Some(ValidationError::InvalidGroupMode)
    } else if group_settings.is_positive_lookahead && group_settings.is_negative_lookahead {
        Some(ValidationError::ConflictingLookaheadModes)
    } else if (group_settings.is_positive_lookahead || group_settings.is_negative_lookahead)
        && (group_settings.other.is_optional || group_settings.other.is_optional_ungreedy) {
        Some(ValidationError::QuantifiedLookahead)
    } else {
        None
    }
}

fn wrap_group(expression: &str, group_settings: &GroupSettings) -> (result: String)
    ensures
        result@ == group_wrap_chars(expression@, *group_settings),
{
    if group_settings.is_non_capture {
        match group_settings.other.flags {
            Some(f) => {
                let mut wrapped = "(".to_owned();
                wrapped.append(f.as_str());
                wrapped.append(":");
                wrapped.append(expression);
                wrapped.append(")");
                proof {
                    assert(wrapped@ =~= group_wrap_chars(expression@, *group_settings));
                }
                wrapped
            },
            None => {
                let mut wrapped = "(?:".to_owned();
                wrapped.append(expression);
                wrapped.append(")");
                proof {
                    assert(wrapped@ =~= group_wrap_chars(expression@, *group_settings));
                }
                wrapped
            },
        }
    } else {
        let opening = if group_settings.is_positive_lookahead {
            "(?="
        } else if group_settings.is_negative_lookahead {
            "(?!"
        } else {
            "("
        };
        let mut wrapped = opening.to_owned();
        if let Some(f) = group_settings.other.flags {
            wrapped.append("(");
            wrapped.append(f.as_str());
            wrapped.append(")");
        }
        wrapped.append(expression);
        wrapped.append(")");
        proof {
            assert(wrapped@ =~= group_wrap_chars(expression@, *group_settings));
        }
        wrapped
    }
}

fn enclose(prefix: &str, inner: &str) -> (result: String)
    ensures
        result@ == prefix@ + inner@ + ")"@,
{
    let mut wrapped = prefix.to_owned();
    wrapped.append(inner);
    wrapped.append(")");
    proof {
        assert(wrapped@ =~= prefix@ + inner@ + ")"@);
    }
    wrapped
}

fn prefixed(prefix: &str, inner: &str) -> (result: String)
    ensures
        result@ == prefix@ + inner@,
{
    let mut wrapped = prefix.to_owned();
    wrapped.append(inner);
    wrapped
}

impl EasyRegex {
    /// Appends `expression` wrapped as a group, decorated according to
    /// `group_settings`, to the accumulated pattern.
    ///
    /// Capture-mode conflicts are rejected first, then quantifier conflicts
    /// of the inner settings; no output is produced on an error.
    pub fn group(self, expression: &str, group_settings: &GroupSettings) -> (result: Result<
        EasyRegex,
        ValidationError,
    >)
        ensures
            (match result {
                Ok(built) => group_error(*group_settings) is None && built@ == self@ + group_chars(
                    expression@,
                    *group_settings,
                ),
                Err(e) => group_error(*group_settings) == Some(e),
            }),
    {
        if let Some(e) = validate_group(group_settings) {
            return Err(e);
        }
        let wrapped = wrap_group(expression, group_settings);
        let remaining = Settings { flags: None, ..group_settings.other };
        match format_segment(wrapped.as_str(), &remaining) {
            Ok(formatted) => {
                let mut accumulated = self.0;
                accumulated.append(formatted.as_str());
                Ok(EasyRegex(accumulated))
            },
            Err(e) => Err(e),
        }
    }

    /// Same as [`EasyRegex::group`], with a named-capture header `?P<name>`
    /// injected right after the opening parenthesis.
    pub fn named_group(self, name: &str, expression: &str, group_settings: &GroupSettings) -> (result:
        Result<EasyRegex, ValidationError>)
        ensures
            (match result {
                Ok(built) => group_error(*group_settings) is None && built@ == self@ + group_chars(
                    named_chars(name@, expression@),
                    *group_settings,
                ),
                Err(e) => group_error(*group_settings) == Some(e),
            }),
    {
        let mut headed = "?P<".to_owned();
        headed.append(name);
        headed.append(">");
        headed.append(expression);
        proof {
            assert(headed@ =~= named_chars(name@, expression@));
        }
        self.group(headed.as_str(), group_settings)
    }

    /// Turns the whole accumulated pattern into a capturing group, decorated
    /// according to `settings`.
    pub fn into_group(self, settings: &Settings) -> (result: Result<EasyRegex, ValidationError>)
        ensures
            (match result {
                Ok(built) => settings_error(*settings) is None && built@ == segment_chars(
                    paren_chars(self@),
                    *settings,
                ),
                Err(e) => settings_error(*settings) == Some(e),
            }),
    {
        let wrapped = enclose("(", self.0.as_str());
        match format_segment(wrapped.as_str(), settings) {
            Ok(formatted) => Ok(EasyRegex(formatted)),
            Err(e) => Err(e),
        }
    }

    /// Turns the whole accumulated pattern into a named capturing group
    /// `(?P<name>...)`, decorated according to `settings`.
    pub fn into_named_group(self, name: &str, settings: &Settings) -> (result: Result<
        EasyRegex,
        ValidationError,
    >)
        ensures
            (match result {
                Ok(built) => settings_error(*settings) is None && built@ == segment_chars(
                    named_paren_chars(name@, self@),
                    *settings,
                ),
                Err(e) => settings_error(*settings) == Some(e),
            }),
    {
        let mut wrapped = "(?P<".to_owned();
        wrapped.append(name);
        wrapped.append(">");
        wrapped.append(self.0.as_str());
        wrapped.append(")");
        proof {
            assert(wrapped@ =~= named_paren_chars(name@, self@));
        }
        match format_segment(wrapped.as_str(), settings) {
            Ok(formatted) => Ok(EasyRegex(formatted)),
            Err(e) => Err(e),
        }
    }

    /// Turns the whole accumulated pattern into a non-capturing group
    /// `(?:...)`.
    pub fn into_non_capturing(self) -> (result: Self)
        ensures
            result@ == "(?:"@ + self@ + ")"@,
    {
        EasyRegex(enclose("(?:", self.0.as_str()))
    }

    /// Turns the whole accumulated pattern into a capturing group with the
    /// insensitive flag: `((?i)...)`.
    pub fn into_insensitive_group(self) -> (result: Self)
        ensures
            result@ == "((?i)"@ + self@ + ")"@,
    {
        EasyRegex(enclose("((?i)", self.0.as_str()))
    }

    /// Turns the whole accumulated pattern into a capturing group with the
    /// multiline flag: `((?m)...)`.
    pub fn into_multline_group(self) -> (result: Self)
        ensures
            result@ == "((?m)"@ + self@ + ")"@,
    {
        EasyRegex(enclose("((?m)", self.0.as_str()))
    }

    /// Turns the whole accumulated pattern into a capturing group with the
    /// dot-matches-newline flag: `((?s)...)`.
    pub fn into_dot_match_newline_group(self) -> (result: Self)
        ensures
            result@ == "((?s)"@ + self@ + ")"@,
    {
        EasyRegex(enclose("((?s)", self.0.as_str()))
    }

    /// Turns the whole accumulated pattern into a capturing group with the
    /// ignore-whitespace flag: `((?x)...)`.
    pub fn into_ignore_whitespace_group(self) -> (result: Self)
        ensures
            result@ == "((?x)"@ + self@ + ")"@,
    {
        EasyRegex(enclose("((?x)", self.0.as_str()))
    }

    /// Turns the whole accumulated pattern into a non-capturing group with
    /// the insensitive flag: `(?i:...)`.
    pub fn into_insensitive_non_capturing(self) -> (result: Self)
        ensures
            result@ == "(?i:"@ + self@ + ")"@,
    {
        EasyRegex(enclose("(?i:", self.0.as_str()))
    }

    /// Turns the whole accumulated pattern into a non-capturing group with
    /// the multiline flag: `(?m:...)`.
    pub fn into_multiline_non_capturing(self) -> (result: Self)
        ensures
            result@ == "(?m:"@ + self@ + ")"@,
    {
        EasyRegex(enclose("(?m:", self.0.as_str()))
    }

    /// Turns the whole accumulated pattern into a non-capturing group with
    /// the dot-matches-newline flag: `(?s:...)`.
    pub fn into_dot_match_newline_non_capturing(self) -> (result: Self)
        ensures
            result@ == "(?s:"@ + self@ + ")"@,
    {
        EasyRegex(enclose("(?s:", self.0.as_str()))
    }

    /// Turns the whole accumulated pattern into a non-capturing group with
    /// the ignore-whitespace flag: `(?x:...)`.
    pub fn into_ignore_whitespace_non_capturing(self) -> (result: Self)
        ensures
            result@ == "(?x:"@ + self@ + ")"@,
    {
        EasyRegex(enclose("(?x:", self.0.as_str()))
    }

    /// Prefixes the accumulated pattern with the cleared insensitive flag
    /// `(?-i)`.
    pub fn into_sensitive_group(self) -> (result: Self)
        ensures
            result@ == "(?-i)"@ + self@,
    {
        EasyRegex(prefixed("(?-i)", self.0.as_str()))
    }

    /// Prefixes the accumulated pattern with the cleared multiline flag
    /// `(?-m)`.
    pub fn into_single_line_group(self) -> (result: Self)
        ensures
            result@ == "(?-m)"@ + self@,
    {
        EasyRegex(prefixed("(?-m)", self.0.as_str()))
    }

    /// Prefixes the accumulated pattern with the cleared dot-matches-newline
    /// flag `(?-s)`.
    pub fn into_dot_dismatch_newline_group(self) -> (result: Self)
        ensures
            result@ == "(?-s)"@ + self@,
    {
        EasyRegex(prefixed("(?-s)", self.0.as_str()))
    }

    /// Prefixes the accumulated pattern with the cleared ignore-whitespace
    /// flag `(?-x)`.
    pub fn into_include_whitespace_group(self) -> (result: Self)
        ensures
            result@ == "(?-x)"@ + self@,
    {
        EasyRegex(prefixed("(?-x)", self.0.as_str()))
    }

    /// Turns the whole accumulated pattern into a non-capturing group with
    /// the cleared insensitive flag: `(?-i:...)`.
    pub fn into_sensitive_non_capturing(self) -> (result: Self)
        ensures
            result@ == "(?-i:"@ + self@ + ")"@,
    {
        EasyRegex(enclose("(?-i:", self.0.as_str()))
    }

    /// Turns the whole accumulated pattern into a non-capturing group with
    /// the cleared multiline flag: `(?-m:...)`.
    pub fn into_single_line_non_capturing(self) -> (result: Self)
        ensures
            result@ == "(?-m:"@ + self@ + ")"@,
    {
        EasyRegex(enclose("(?-m:", self.0.as_str()))
    }

    /// Turns the whole accumulated pattern into a non-capturing group with
    /// the cleared dot-matches-newline flag: `(?-s:...)`.
    pub fn into_dot_dismatch_newline_non_capturing(self) -> (result: Self)
        ensures
            result@ == "(?-s:"@ + self@ + ")"@,
    {
        EasyRegex(enclose("(?-s:", self.0.as_str()))
    }

    /// Turns the whole accumulated pattern into a non-capturing group with
    /// the cleared ignore-whitespace flag: `(?-x:...)`.
    pub fn into_include_whitespace_non_capturing_group(self) -> (result: Self)
        ensures
            result@ == "(?-x:"@ + self@ + ")"@,
    {
        EasyRegex(enclose("(?-x:", self.0.as_str()))
    }
}

} // verus!
