use easy_regex::collection::{
    CHINESE_ALPHABET, FRENCH_ALPHABET, GERMAN_ALPHABET, IPV6, PERSIAN_ALPHA_NUMERIC,
    TIME_HH_MM_12_AMPM, WEBSITE_URL, _date_regex_generator,
};
use easy_regex::presets;
use easy_regex::EasyRegex;

#[test]
fn persian_words_regex_works() {
    let result = EasyRegex::new_section()
        .list(PERSIAN_ALPHA_NUMERIC, &presets::one_or_more())
        .unwrap();

    let text = "سلام شماره من ۱۲۳۶ است";
    let is_match = result.clone().get_regex().unwrap().find_iter(text).count();
    result
        .get_regex()
        .unwrap()
        .find_iter(text)
        .for_each(|found| {
            println!("{}", found.as_str());
        });

    assert_eq!(5, is_match);
}

#[test]
fn french_words_regex_works() {
    let text = "Adélaïde Aurélie Gaëlle";
    let result = EasyRegex::new_section()
        .list(FRENCH_ALPHABET, &presets::one_or_more())
        .unwrap();

    let count = result.get_regex().unwrap().captures_iter(text).count();
    assert_eq!(3, count);
}

#[test]
fn german_words_regex_works() {
    let text = "Müller Sönke Käthe";
    let result = EasyRegex::new_section()
        .list(GERMAN_ALPHABET, &presets::one_or_more())
        .unwrap();

    let count = result.get_regex().unwrap().captures_iter(text).count();
    assert_eq!(3, count);
}

#[test]
fn chinese_words_regex_works() {
    let text = "正则表达式";
    let result = EasyRegex::new_section()
        .list(CHINESE_ALPHABET, &presets::one_or_more())
        .unwrap();

    let is_match = result.get_regex().unwrap().is_match(text);
    assert_eq!(true, is_match);
}

#[test]
fn website_url_works() {
    let text = r#"http://www.swimming-pool.co.uk/products/shorts?searchMe=queryMe&name=smith
            something@gmail.com
            www.seasoning.com
            university.gov helloworld.com
            https://javaScript.com
        "#;

    let result = EasyRegex::new(WEBSITE_URL);
    let captures = result.get_regex().unwrap();
    captures.captures_iter(text).for_each(|caps| {
        println!(
            "protocol: {}, subdomain: {}, domain name: {}, top level name: {}, directory: {}, query params: {}\n",
            &caps.get(1).map_or("not found", |m| m.as_str()),
            &caps.get(2).map_or("not found", |m| m.as_str()),
            &caps.get(3).map_or("not found", |m| m.as_str()),
            &caps.get(4).map_or("not found", |m| m.as_str()),
            &caps.get(5).map_or("not found", |m| m.as_str()),
            &caps.get(6).map_or("not found", |m| m.as_str()),
        );
    })
}

#[test]
fn time_works() {
    let text = "7:4 5:20 6:30am 02:2 01:30";
    let result = EasyRegex::new(TIME_HH_MM_12_AMPM);
    result
        .clone()
        .get_regex()
        .unwrap()
        .captures_iter(text)
        .for_each(|f| {
            println!("{:?}", f);
        });
    let count = result.get_regex().unwrap().captures_iter(text).count();
    assert_eq!(5, count);
}

#[test]
fn ip_works() {
    let text = "2001:0db8:85a3:0000:0000:8a2e:0370:7334 5002:0db8:85a3:0000:0000:8a2e:0560:7334";
    let result = EasyRegex::new(IPV6);
    result
        .clone()
        .get_regex()
        .unwrap()
        .captures_iter(text)
        .for_each(|f| {
            println!("{:?}", f);
        });
    let count = result.get_regex().unwrap().captures_iter(text).count();
    assert_eq!(2, count);
}

#[test]
fn date_gen_output() {
    println!("{}", _date_regex_generator());
}
