//! Settings records describing how a single pattern fragment is decorated.
//!
//! A [`Settings`] value lists the quantifiers, boundary anchors and inline
//! flag to attach to one fragment; a [`GroupSettings`] value extends it with
//! the capture mode of a group. Both are immutable value objects: an
//! operation receives one, validates it and never changes it.

use vstd::prelude::*;

verus! {

/// An inline mode modifier, inserted as `(?<chars>)` before a fragment or as
/// `(?<chars>:...)` around a non-capturing group.
#[derive(Debug, Clone, Copy, PartialEq, Eq, Structural)]
pub enum Flags {
    Insensitive,
    Multiline,
    DotMatchNewLine,
    IgnoreWhitespace,
    Sensitive,
    SingleLine,
    DotDisMatchNewLine,
    IncludeWhitespace,
}

/// The characters of a flag's inline-modifier token, without the
/// surrounding parentheses.
pub open spec fn flag_chars(f: Flags) -> Seq<char> {
    match f {
        Flags::Insensitive => "?i"@,
        Flags::Multiline => "?m"@,
        Flags::DotMatchNewLine => "?s"@,
        Flags::IgnoreWhitespace => "?x"@,
        Flags::Sensitive => "?-i"@,
        Flags::SingleLine => "?-m"@,
        Flags::DotDisMatchNewLine => "?-s"@,
        Flags::IncludeWhitespace => "?-x"@,
    }
}

impl Flags {
    /// Converts a flag into its inline-modifier token.
    pub fn as_str(&self) -> (result: &'static str)
        ensures
            result@ == flag_chars(*self),
    {
        match self {
            Flags::Insensitive => "?i",
            Flags::Multiline => "?m",
            Flags::DotMatchNewLine => "?s",
            Flags::IgnoreWhitespace => "?x",
            Flags::Sensitive => "?-i",
            Flags::SingleLine => "?-m",
            Flags::DotDisMatchNewLine => "?-s",
            Flags::IncludeWhitespace => "?-x",
        }
    }
}

/// The quantifiers, boundary anchors and inline flag to attach to a single
/// fragment.
///
/// `range` and `exactly` are mutually exclusive, both are mutually exclusive
/// with `is_one_or_more`/`is_nil_or_more`, and those two are mutually
/// exclusive with each other; a violation is a construction error reported
/// before any output is produced.
#[derive(Debug, Clone, Copy)]
pub struct Settings {
    pub is_optional: bool,
    pub is_optional_ungreedy: bool,
    pub is_one_or_more: bool,
    pub is_nil_or_more: bool,
    pub with_left_boundary: bool,
    pub with_left_non_boundary: bool,
    pub with_right_boundary: bool,
    pub with_right_non_boundary: bool,
    pub range: Option<(Option<u8>, Option<u8>)>,
    pub exactly: Option<u8>,
    pub flags: Option<Flags>,
}

/// The settings record with every option switched off.
pub open spec fn default_settings() -> Settings {
    Settings {
        is_optional: false,
        is_optional_ungreedy: false,
        is_one_or_more: false,
        is_nil_or_more: false,
        with_left_boundary: false,
        with_left_non_boundary: false,
        with_right_boundary: false,
        with_right_non_boundary: false,
        range: None,
        exactly: None,
        flags: None,
    }
}

impl Default for Settings {
    fn default() -> (result: Self)
        ensures
            result == default_settings(),
    {
        Settings {
            is_optional: false,
            is_optional_ungreedy: false,
            is_one_or_more: false,
            is_nil_or_more: false,
            with_left_boundary: false,
            with_left_non_boundary: false,
            with_right_boundary: false,
            with_right_non_boundary: false,
            range: None,
            exactly: None,
            flags: None,
        }
    }
}

impl Settings {
    /// A settings record asking for exactly `number` repetitions and nothing
    /// else.
    pub fn exactly(number: u8) -> (result: Self)
        ensures
            result == (Settings { exactly: Some(number), ..default_settings() }),
    {
        Settings { exactly: Some(number), ..Settings::default() }
    }

    /// A settings record asking for a bounded repetition range and nothing
    /// else.
    pub fn range(from: Option<u8>, to: Option<u8>) -> (result: Self)
        ensures
            result == (Settings { range: Some((from, to)), ..default_settings() }),
    {
        Settings { range: Some((from, to)), ..Settings::default() }
    }
}

/// Settings for a group operation: the per-fragment [`Settings`] plus the
/// group's capture mode.
///
/// `is_non_capture` is mutually exclusive with either lookahead mode, the two
/// lookahead modes are mutually exclusive with each other, and a lookahead
/// mode is mutually exclusive with `is_optional`/`is_optional_ungreedy` of the
/// inner settings (a lookahead asserts a position and cannot be quantified).
#[derive(Debug, Clone, Copy)]
pub struct GroupSettings {
    pub other: Settings,
    pub is_non_capture: bool,
    pub is_positive_lookahead: bool,
    pub is_negative_lookahead: bool,
}

/// The group settings record for a plain capturing group with no decoration.
pub open spec fn default_group_settings() -> GroupSettings {
    GroupSettings {
        other: default_settings(),
        is_non_capture: false,
        is_positive_lookahead: false,
        is_negative_lookahead: false,
    }
}

impl Default for GroupSettings {
    fn default() -> (result: Self)
        ensures
            result == default_group_settings(),
    {
        GroupSettings {
            other: Settings::default(),
            is_non_capture: false,
            is_positive_lookahead: false,
            is_negative_lookahead: false,
        }
    }
}

impl GroupSettings {
    /// Group settings asking for exactly `number` repetitions of a capturing
    /// group and nothing else.
    pub fn grp_exactly(number: u8) -> (result: Self)
        ensures
            result == (GroupSettings {
                other: Settings { exactly: Some(number), ..default_settings() },
                ..default_group_settings()
            }),
    {
        GroupSettings { other: Settings::exactly(number), ..GroupSettings::default() }
    }

    /// Group settings asking for a bounded repetition range of a capturing
    /// group and nothing else.
    pub fn grp_range(from: Option<u8>, to: Option<u8>) -> (result: Self)
        ensures
            result == (GroupSettings {
                other: Settings { range: Some((from, to)), ..default_settings() },
                ..default_group_settings()
            }),
    {
        GroupSettings { other: Settings::range(from, to), ..GroupSettings::default() }
    }
}

} // verus!
