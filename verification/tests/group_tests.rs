use easy_regex::presets;
use easy_regex::settings::{GroupSettings, Settings};
use easy_regex::EasyRegex;

#[test]
fn group_works() {
    let initial_exp = EasyRegex::new("initial_");
    let result = initial_exp.group("group", &presets::default_group()).unwrap();
    assert_eq!("initial_(group)", result.as_str());
}

#[test]
fn optional_non_capture_group_works() {
    let initial_exp = EasyRegex::start_of_line();
    let group_settings = GroupSettings {
        other: Settings {
            is_optional: true,
            ..Default::default()
        },
        is_non_capture: true,
        ..Default::default()
    };

    let result = initial_exp.group("group", &group_settings).unwrap();
    assert_eq!("^(?:group)?", result.as_str());
}

#[test]
fn insensitive_group_works() {
    let result = EasyRegex::start_of_line()
        .group("group", &presets::insensitive_group())
        .unwrap()
        .get_regex()
        .unwrap();
    assert_eq!("^((?i)group)", result.as_str());
}

#[test]
fn insensitive_non_capturing_group_works() {
    let result = EasyRegex::start_of_line()
        .group("group", &presets::insensitive_non_capture())
        .unwrap()
        .get_regex()
        .unwrap();
    assert_eq!("^(?i:group)", result.as_str());
}

#[test]
fn into_group_works() {
    let initial_exp = EasyRegex::new("group");
    let result = initial_exp.into_group(&presets::default()).unwrap();

    assert_eq!("(group)", result.as_str());
}
