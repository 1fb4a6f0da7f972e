use easy_regex::helpers::html_pattern::{create_pattern, HtmlPattern};
use easy_regex::helpers::persian_pattern::create_persian_pattern;

#[test]
fn one_level_nested_elements() {
    let pattern_str = HtmlPattern {
        tag_name: "div",
        essential_attribute: Some("id=\"86\""),
        child_html: Box::new(Some(HtmlPattern {
            tag_name: "div",
            essential_attribute: Some("class=\"some-class\""),
            child_html: Box::new(None),
        })),
    };

    let result = create_pattern(pattern_str);
    assert_eq!(
        "<div[^<>]*id=\"86\"[^<>]*>.*<div[^<>]*class=\"some-class\"[^<>]*>(.*)</div>.*</div>",
        result
    );
}

#[test]
fn two_level_nested_elements() {
    let pattern_str = HtmlPattern {
        tag_name: "div",
        essential_attribute: Some("id=\"86\""),
        child_html: Box::new(Some(HtmlPattern {
            tag_name: "div",
            essential_attribute: Some("class=\"some-class\""),
            child_html: Box::new(Some(HtmlPattern {
                tag_name: "p",
                essential_attribute: None,
                child_html: Box::new(None),
            })),
        })),
    };

    let result = create_pattern(pattern_str);
    assert_eq!("<div[^<>]*id=\"86\"[^<>]*>.*<div[^<>]*class=\"some-class\"[^<>]*><p[^<>]*>(.*)</p>.*</div>.*</div>", result);
}

#[test]
fn create_persian_pattern_works() {
    let result = create_persian_pattern("ا", "د");
    assert_eq!("ابپتثجچحخد", result.unwrap())
}

#[test]
fn create_persian_pattern_wrong_from_input() {
    let result = create_persian_pattern("d", "م");
    assert_eq!("letter 'd' is not valid", result.unwrap_err())
}

#[test]
fn create_persian_pattern_wrong_to_input() {
    let result = create_persian_pattern("ا", "d");
    assert_eq!("letter 'd' is not valid", result.unwrap_err())
}

#[test]
fn create_persian_pattern_wrong_order() {
    let result = create_persian_pattern("خ", "ا");
    assert_eq!(
        "letter 'خ' is after letter 'ا', consider swapping them",
        result.unwrap_err()
    );
}
