use easy_regex::presets;
use easy_regex::settings::Settings;
use easy_regex::EasyRegex;

#[test]
fn literal_exp_works() {
    let initial_exp = EasyRegex::new("initial_");
    let result = initial_exp.literal("abcd", &presets::default()).unwrap();
    assert_eq!(result.as_str(), "initial_abcd");
}

#[test]
fn literal_exp_optional_works() {
    let initial_exp = EasyRegex::new("initial_");
    let result = initial_exp.literal("abcd", &presets::optional()).unwrap();
    assert_eq!(result.as_str(), "initial_abcd?");
}

#[test]
fn literal_exp_range_works() {
    let initial_exp = EasyRegex::new("initial_");
    let result = initial_exp
        .literal(
            "abcd",
            &Settings {
                is_optional: true,
                range: Some((None, Some(2))),
                ..Default::default()
            },
        )
        .unwrap();
    assert_eq!(result.as_str(), "initial_abcd{,2}?");
}

#[test]
fn literal_exp_boundary_works() {
    let initial_exp = EasyRegex::new("initial_");
    let result = initial_exp
        .literal(
            "abcd",
            &Settings {
                with_left_boundary: true,
                with_right_boundary: true,
                ..Default::default()
            },
        )
        .unwrap();
    assert_eq!(result.as_str(), "initial_\\babcd\\b");
}

#[test]
fn literal_exp_mixed_works() {
    let initial_exp = EasyRegex::new("initial_");
    let result = initial_exp
        .literal(
            "ab\\scd",
            &Settings {
                is_optional: true,
                with_left_boundary: true,
                with_right_boundary: true,
                range: Some((None, Some(5))),
                ..Default::default()
            },
        )
        .unwrap();
    assert_eq!(result.as_str(), "initial_\\bab\\scd{,5}?\\b");
}
