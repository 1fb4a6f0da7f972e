//! Ready-made settings records for common decorations.
//!
//! Each function builds one fixed [`Settings`] or [`GroupSettings`] value;
//! using one is equivalent to constructing the record inline.

use vstd::prelude::*;
use crate::settings::{
    Flags,
    GroupSettings,
    Settings,
    default_group_settings,
    default_settings,
};

verus! {

/// A settings record with every option switched off.
pub fn default() -> (result: Settings)
    ensures
        result == default_settings(),
{
    Settings::default()
}

/// Marks the fragment optional: `?`.
pub fn optional() -> (result: Settings)
    ensures
        result == (Settings { is_optional: true, ..default_settings() }),
{
    Settings { is_optional: true, ..Settings::default() }
}

/// Marks the fragment optional and ungreedy: `??`.
pub fn optional_ungreedy() -> (result: Settings)
    ensures
        result == (Settings { is_optional_ungreedy: true, ..default_settings() }),
{
    Settings { is_optional_ungreedy: true, ..Settings::default() }
}

/// Asks for one or more repetitions: `+`.
pub fn one_or_more() -> (result: Settings)
    ensures
        result == (Settings { is_one_or_more: true, ..default_settings() }),
{
    Settings { is_one_or_more: true, ..Settings::default() }
}

/// Asks for one or more repetitions, ungreedily: `+?`.
pub fn one_or_more_ungreedy() -> (result: Settings)
    ensures
        result == (Settings { is_optional: true, is_one_or_more: true, ..default_settings() }),
{
    Settings { is_optional: true, is_one_or_more: true, ..Settings::default() }
}

/// Asks for zero or more repetitions: `*`.
pub fn nil_or_more() -> (result: Settings)
    ensures
        result == (Settings { is_nil_or_more: true, ..default_settings() }),
{
    Settings { is_nil_or_more: true, ..Settings::default() }
}

/// Asks for zero or more repetitions, ungreedily: `*?`.
pub fn nil_or_more_ungreedy() -> (result: Settings)
    ensures
        result == (Settings { is_optional: true, is_nil_or_more: true, ..default_settings() }),
{
    Settings { is_optional: true, is_nil_or_more: true, ..Settings::default() }
}

/// Puts a word boundary before the fragment.
pub fn left_boundary() -> (result: Settings)
    ensures
        result == (Settings { with_left_boundary: true, ..default_settings() }),
{
    Settings { with_left_boundary: true, ..Settings::default() }
}

/// Puts a word boundary after the fragment.
pub fn right_boundary() -> (result: Settings)
    ensures
        result == (Settings { with_right_boundary: true, ..default_settings() }),
{
    Settings { with_right_boundary: true, ..Settings::default() }
}

/// Puts word boundaries on both sides of the fragment.
pub fn both_boundary() -> (result: Settings)
    ensures
        result == (Settings {
            with_left_boundary: true,
            with_right_boundary: true,
            ..default_settings()
        }),
{
    Settings { with_left_boundary: true, with_right_boundary: true, ..Settings::default() }
}

/// Prefixes the fragment with the insensitive flag.
pub fn insensitive() -> (result: Settings)
    ensures
        result == (Settings { flags: Some(Flags::Insensitive), ..default_settings() }),
{
    Settings { flags: Some(Flags::Insensitive), ..Settings::default() }
}

/// Prefixes the fragment with the multiline flag.
pub fn multiline() -> (result: Settings)
    ensures
        result == (Settings { flags: Some(Flags::Multiline), ..default_settings() }),
{
    Settings { flags: Some(Flags::Multiline), ..Settings::default() }
}

/// Prefixes the fragment with the dot-matches-newline flag.
pub fn dot_match_newline() -> (result: Settings)
    ensures
        result == (Settings { flags: Some(Flags::DotMatchNewLine), ..default_settings() }),
{
    Settings { flags: Some(Flags::DotMatchNewLine), ..Settings::default() }
}

/// Prefixes the fragment with the ignore-whitespace flag.
pub fn ignore_whitespace() -> (result: Settings)
    ensures
        result == (Settings { flags: Some(Flags::IgnoreWhitespace), ..default_settings() }),
{
    Settings { flags: Some(Flags::IgnoreWhitespace), ..Settings::default() }
}

/// A plain capturing group with no decoration.
pub fn default_group() -> (result: GroupSettings)
    ensures
        result == default_group_settings(),
{
    GroupSettings::default()
}

/// An optional capturing group.
pub fn optional_group() -> (result: GroupSettings)
    ensures
        result == (GroupSettings {
            other: Settings { is_optional: true, ..default_settings() },
            ..default_group_settings()
        }),
{
    GroupSettings { other: optional(), ..GroupSettings::default() }
}

/// A plain non-capturing group.
pub fn non_capture() -> (result: GroupSettings)
    ensures
        result == (GroupSettings { is_non_capture: true, ..default_group_settings() }),
{
    GroupSettings { is_non_capture: true, ..GroupSettings::default() }
}

/// A capturing group carrying the insensitive flag.
pub fn insensitive_group() -> (result: GroupSettings)
    ensures
        result == (GroupSettings {
            other: Settings { flags: Some(Flags::Insensitive), ..default_settings() },
            ..default_group_settings()
        }),
{
    GroupSettings { other: insensitive(), ..GroupSettings::default() }
}

/// A non-capturing group carrying the insensitive flag.
pub fn insensitive_non_capture() -> (result: GroupSettings)
    ensures
        result == (GroupSettings {
            other: Settings { flags: Some(Flags::Insensitive), ..default_settings() },
            is_non_capture: true,
            ..default_group_settings()
        }),
{
    GroupSettings { other: insensitive(), is_non_capture: true, ..GroupSettings::default() }
}

/// A non-capturing group clearing the insensitive flag.
pub fn sensitive_non_capture() -> (result: GroupSettings)
    ensures
        result == (GroupSettings {
            other: Settings { flags: Some(Flags::Sensitive), ..default_settings() },
            is_non_capture: true,
            ..default_group_settings()
        }),
{
    GroupSettings {
        other: Settings { flags: Some(Flags::Sensitive), ..Settings::default() },
        is_non_capture: true,
        ..GroupSettings::default()
    }
}

/// A positive-lookahead group.
pub fn positive_lookahead() -> (result: GroupSettings)
    ensures
        result == (GroupSettings { is_positive_lookahead: true, ..default_group_settings() }),
{
    GroupSettings { is_positive_lookahead: true, ..GroupSettings::default() }
}

/// A negative-lookahead group.
pub fn negative_lookahead() -> (result: GroupSettings)
    ensures
        result == (GroupSettings { is_negative_lookahead: true, ..default_group_settings() }),
{
    GroupSettings { is_negative_lookahead: true, ..GroupSettings::default() }
}

} // verus!
