use easy_regex::presets;
use easy_regex::settings::{Flags, Settings};
use easy_regex::EasyRegex;

#[test]
fn list_list_works() {
    let initial_exp = EasyRegex::new("initial");
    let result = initial_exp.list("abcd", &presets::default()).unwrap();
    assert_eq!(result.as_str(), "initial[abcd]");
}

#[test]
fn list_list_with_flag_and_settings_works() {
    let result = EasyRegex::new_section()
        .list(
            "list",
            &Settings {
                range: Some((Some(2), None)),
                flags: Some(Flags::Insensitive),
                ..Default::default()
            },
        )
        .unwrap();

    assert_eq!("(?i)[list]{2,}", result.as_str());
}

#[test]
fn list_mod_list_works() {
    let initial_exp = EasyRegex::new("initial");
    let result = initial_exp.list("abcd", &presets::default()).unwrap();
    assert_eq!(result.as_str(), "initial[abcd]");
}

#[test]
fn list_mod_list_with_flag_and_settings_works() {
    let result = EasyRegex::new_section()
        .list(
            "list",
            &Settings {
                range: Some((Some(2), None)),
                flags: Some(Flags::Insensitive),
                ..Default::default()
            },
        )
        .unwrap();

    assert_eq!("(?i)[list]{2,}", result.as_str());
}
