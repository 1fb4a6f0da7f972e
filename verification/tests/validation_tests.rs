use easy_regex::errors::{error_builder, ValidationError};
use easy_regex::presets;
use easy_regex::settings::{Flags, GroupSettings, Settings};
use easy_regex::EasyRegex;

#[test]
fn range_with_repetition_is_rejected() {
    let result = EasyRegex::new_section().literal(
        "ab\\scd",
        &Settings {
            is_one_or_more: true,
            range: Some((Some(2), None)),
            ..Default::default()
        },
    );
    assert_eq!(result.unwrap_err(), ValidationError::ConflictingRepetition);
}

#[test]
fn star_with_plus_is_rejected() {
    let result = EasyRegex::new_section().literal(
        "ab\\scd",
        &Settings {
            is_one_or_more: true,
            is_nil_or_more: true,
            ..Default::default()
        },
    );
    assert_eq!(
        result.unwrap_err(),
        ValidationError::ConflictingQuantifierPair
    );
}

#[test]
fn range_with_exact_count_is_rejected() {
    let result = EasyRegex::new_section().literal(
        "ab\\scd",
        &Settings {
            range: Some((Some(2), Some(10))),
            exactly: Some(8),
            ..Default::default()
        },
    );
    assert_eq!(result.unwrap_err(), ValidationError::ConflictingCountSpec);
}

#[test]
fn non_capturing_lookahead_is_rejected() {
    let result = EasyRegex::new_section().group(
        "group",
        &GroupSettings {
            is_non_capture: true,
            is_positive_lookahead: true,
            ..Default::default()
        },
    );
    assert_eq!(result.unwrap_err(), ValidationError::InvalidGroupMode);
}

#[test]
fn double_lookahead_is_rejected() {
    let result = EasyRegex::new_section().group(
        "group",
        &GroupSettings {
            is_positive_lookahead: true,
            is_negative_lookahead: true,
            ..Default::default()
        },
    );
    assert_eq!(
        result.unwrap_err(),
        ValidationError::ConflictingLookaheadModes
    );
}

#[test]
fn optional_lookahead_is_rejected() {
    let result = EasyRegex::new_section().group(
        "group",
        &GroupSettings {
            other: Settings {
                is_optional: true,
                ..Default::default()
            },
            is_negative_lookahead: true,
            ..Default::default()
        },
    );
    assert_eq!(result.unwrap_err(), ValidationError::QuantifiedLookahead);
}

#[test]
fn conflict_is_reported_through_every_operation() {
    let conflicting = Settings {
        is_one_or_more: true,
        is_nil_or_more: true,
        ..Default::default()
    };
    assert!(EasyRegex::new_section().list("a", &conflicting).is_err());
    assert!(EasyRegex::new("a").into_list(&conflicting).is_err());
    assert!(EasyRegex::new("a").into_group(&conflicting).is_err());
    assert!(EasyRegex::new("a").into_named_group("n", &conflicting).is_err());
    assert!(EasyRegex::new_section().digit(conflicting).is_err());
    let group_settings = GroupSettings {
        other: conflicting,
        ..Default::default()
    };
    assert!(EasyRegex::new_section().group("a", &group_settings).is_err());
}

#[test]
fn url_scenario_works() {
    let result = EasyRegex::start_of_line()
        .group("http|https|ftp", &presets::default_group())
        .unwrap()
        .literal(":", &presets::default())
        .unwrap()
        .list("/", &Settings::exactly(2))
        .unwrap();
    assert_eq!("^(http|https|ftp):[/]{2}", result.as_str());
}

#[test]
fn into_group_adds_exactly_one_layer() {
    let once = EasyRegex::new("group").into_group(&presets::default()).unwrap();
    assert_eq!("(group)", once.as_str());
    let twice = once.into_group(&presets::default()).unwrap();
    assert_eq!("((group))", twice.as_str());
    let parenthesized = EasyRegex::new("(group)")
        .into_group(&presets::default())
        .unwrap();
    assert_eq!("((group))", parenthesized.as_str());
}

#[test]
fn exact_count_renders_every_digit() {
    let result = EasyRegex::new("x").literal("y", &Settings::exactly(123)).unwrap();
    assert_eq!("xy{123}", result.as_str());
    let zero = EasyRegex::new("x").literal("y", &Settings::exactly(0)).unwrap();
    assert_eq!("xy{0}", zero.as_str());
}

#[test]
fn range_renders_both_bounds() {
    let result = EasyRegex::new_section()
        .literal("y", &Settings::range(Some(0), Some(255)))
        .unwrap();
    assert_eq!("y{0,255}", result.as_str());
    let lower_only = EasyRegex::new_section()
        .literal("y", &Settings::range(Some(10), None))
        .unwrap();
    assert_eq!("y{10,}", lower_only.as_str());
    let upper_only = EasyRegex::new_section()
        .literal("y", &Settings::range(None, Some(37)))
        .unwrap();
    assert_eq!("y{,37}", upper_only.as_str());
}

#[test]
fn range_with_no_bounds_keeps_the_comma() {
    let result = EasyRegex::new_section()
        .literal("y", &Settings::range(None, None))
        .unwrap();
    assert_eq!("y{,}", result.as_str());
}

#[test]
fn empty_fragment_stays_empty() {
    let result = EasyRegex::new_section()
        .literal("", &presets::default())
        .unwrap();
    assert_eq!("", result.as_str());
}

#[test]
fn ungreedy_markers_follow_greedy_ones() {
    let result = EasyRegex::new_section()
        .literal("y", &presets::optional_ungreedy())
        .unwrap();
    assert_eq!("y??", result.as_str());
    let plus = EasyRegex::new_section()
        .literal("y", &presets::one_or_more_ungreedy())
        .unwrap();
    assert_eq!("y+?", plus.as_str());
    let star = EasyRegex::new_section()
        .literal("y", &presets::nil_or_more_ungreedy())
        .unwrap();
    assert_eq!("y*?", star.as_str());
}

#[test]
fn prefixes_keep_their_order() {
    let result = EasyRegex::new_section()
        .literal(
            "y",
            &Settings {
                with_left_boundary: true,
                with_left_non_boundary: true,
                with_right_boundary: true,
                with_right_non_boundary: true,
                ..Default::default()
            },
        )
        .unwrap();
    assert_eq!("\\B\\by\\b\\B", result.as_str());
}

#[test]
fn flag_precedes_the_boundary_prefixes() {
    let result = EasyRegex::new_section()
        .literal(
            "y",
            &Settings {
                with_left_boundary: true,
                flags: Some(Flags::Insensitive),
                ..Default::default()
            },
        )
        .unwrap();
    assert_eq!("(?i)\\by", result.as_str());
}

#[test]
fn every_flag_has_its_token() {
    assert_eq!("?i", Flags::Insensitive.as_str());
    assert_eq!("?m", Flags::Multiline.as_str());
    assert_eq!("?s", Flags::DotMatchNewLine.as_str());
    assert_eq!("?x", Flags::IgnoreWhitespace.as_str());
    assert_eq!("?-i", Flags::Sensitive.as_str());
    assert_eq!("?-m", Flags::SingleLine.as_str());
    assert_eq!("?-s", Flags::DotDisMatchNewLine.as_str());
    assert_eq!("?-x", Flags::IncludeWhitespace.as_str());
}

#[test]
fn lookahead_groups_use_their_delimiters() {
    let positive = EasyRegex::new_section()
        .group("x", &presets::positive_lookahead())
        .unwrap();
    assert_eq!("(?=x)", positive.as_str());
    let negative = EasyRegex::new_section()
        .group("x", &presets::negative_lookahead())
        .unwrap();
    assert_eq!("(?!x)", negative.as_str());
}

#[test]
fn group_count_settings_decorate_the_group() {
    let exact = EasyRegex::new_section()
        .group("a", &GroupSettings::grp_exactly(3))
        .unwrap();
    assert_eq!("(a){3}", exact.as_str());
    let range = EasyRegex::new_section()
        .group("a", &GroupSettings::grp_range(Some(2), None))
        .unwrap();
    assert_eq!("(a){2,}", range.as_str());
}

#[test]
fn into_wrappers_wrap_the_accumulated_pattern() {
    assert_eq!(
        "(?:abc)",
        EasyRegex::new("abc").into_non_capturing().as_str()
    );
    assert_eq!(
        "((?i)abc)",
        EasyRegex::new("abc").into_insensitive_group().as_str()
    );
    assert_eq!(
        "(?i:abc)",
        EasyRegex::new("abc").into_insensitive_non_capturing().as_str()
    );
    assert_eq!(
        "(?-i)abc",
        EasyRegex::new("abc").into_sensitive_group().as_str()
    );
    assert_eq!(
        "(?-x:abc)",
        EasyRegex::new("abc")
            .into_include_whitespace_non_capturing_group()
            .as_str()
    );
    assert_eq!(
        "(?P<name>abc)",
        EasyRegex::new("abc")
            .into_named_group("name", &presets::default())
            .unwrap()
            .as_str()
    );
}

#[test]
fn metacharacters_are_decorated_like_literals() {
    assert_eq!(
        "\\w",
        EasyRegex::new_section()
            .word(presets::default())
            .unwrap()
            .as_str()
    );
    assert_eq!(
        "\\W?",
        EasyRegex::new_section()
            .non_word(presets::optional())
            .unwrap()
            .as_str()
    );
    assert_eq!(
        "\\d+",
        EasyRegex::new_section()
            .digit(presets::one_or_more())
            .unwrap()
            .as_str()
    );
    assert_eq!(
        "\\D",
        EasyRegex::new_section()
            .non_digit(presets::default())
            .unwrap()
            .as_str()
    );
    assert_eq!(
        "\\s*",
        EasyRegex::new_section()
            .whitespace(presets::nil_or_more())
            .unwrap()
            .as_str()
    );
    assert_eq!(
        "\\S",
        EasyRegex::new_section()
            .non_whitespace(presets::default())
            .unwrap()
            .as_str()
    );
}

#[test]
fn anchors_and_negated_class_append_their_tokens() {
    assert_eq!("[^abc]", EasyRegex::new_section().not("abc").as_str());
    assert_eq!(
        "\\Aabc\\z",
        EasyRegex::only_the_beginning()
            .literal("abc", &presets::default())
            .unwrap()
            .only_the_end()
            .as_str()
    );
    assert_eq!(
        "\\babc\\B",
        EasyRegex::new_section()
            .word_boundary()
            .literal("abc", &presets::default())
            .unwrap()
            .non_word_boundary()
            .as_str()
    );
    assert_eq!("(?m)", EasyRegex::multiline().as_str());
    assert_eq!("(?s)", EasyRegex::dot_match_newline().as_str());
    assert_eq!("(?x)", EasyRegex::ignore_whitespace().as_str());
}

#[test]
fn presets_build_their_decorations() {
    let cases: Vec<(easy_regex::settings::Settings, &str)> = vec![
        (presets::left_boundary(), "\\by"),
        (presets::right_boundary(), "y\\b"),
        (presets::both_boundary(), "\\by\\b"),
        (presets::insensitive(), "(?i)y"),
        (presets::multiline(), "(?m)y"),
        (presets::dot_match_newline(), "(?s)y"),
        (presets::ignore_whitespace(), "(?x)y"),
    ];
    for (settings, expected) in cases {
        let result = EasyRegex::new_section().literal("y", &settings).unwrap();
        assert_eq!(expected, result.as_str());
    }
    let non_capture = EasyRegex::new_section()
        .group("y", &presets::non_capture())
        .unwrap();
    assert_eq!("(?:y)", non_capture.as_str());
}

#[test]
fn error_messages_name_the_conflict() {
    assert_eq!(
        "cannot have range and * or + next to each other.",
        ValidationError::ConflictingRepetition.description()
    );
    assert_eq!(
        "cannot have * and + next to each other.",
        ValidationError::ConflictingQuantifierPair.description()
    );
    assert_eq!(
        "cannot have two quantifiers next to each other.",
        ValidationError::ConflictingCountSpec.description()
    );
    assert_eq!(
        "group cannot be non-capture and lookahead at the same time.",
        ValidationError::InvalidGroupMode.description()
    );
    assert_eq!(
        "group cannot be positive and negative lookahead at the same time.",
        ValidationError::ConflictingLookaheadModes.description()
    );
    assert_eq!(
        "group cannot be lookahead and optional at the same time.",
        ValidationError::QuantifiedLookahead.description()
    );
    assert_eq!(
        "invalid regex in a?b: cannot have * and + next to each other..",
        error_builder(
            "a?b",
            ValidationError::ConflictingQuantifierPair.description()
        )
    );
}

#[test]
fn get_regex_accepts_valid_and_rejects_invalid_patterns() {
    let compiled = EasyRegex::new("[a-z]+").get_regex().unwrap();
    assert_eq!("[a-z]+", compiled.as_str());
    assert!(compiled.is_match("hello"));
    assert!(EasyRegex::new("[a-z").get_regex().is_err());
}
