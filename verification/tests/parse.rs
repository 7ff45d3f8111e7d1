use ip_echo::header::{parse_header, split_header};

#[test]
fn test_parse_header() {
    assert_eq!(
        parse_header("".to_string()),
        ("".to_string(), "".to_string())
    );

    // only key
    assert_eq!(
        parse_header("Accept".to_string()),
        ("accept".to_string(), "".to_string())
    );

    // only once
    assert_eq!(
        parse_header("Host:0.0.0.0:3000".to_string()),
        ("host".to_string(), "0.0.0.0:3000".to_string())
    );

    // does not care the case (returns always in lowercase)
    assert_eq!(
        parse_header("content-length:5".to_string()),
        ("content-length".to_string(), "5".to_string())
    );
}

#[test]
fn parse_header_lowercases_the_name_only() {
    assert_eq!(
        parse_header("Content-Type:Text/HTML".to_string()),
        ("content-type".to_string(), "Text/HTML".to_string())
    );
}

#[test]
fn parse_header_keeps_the_value_verbatim() {
    assert_eq!(
        parse_header("Host: Example.COM \t".to_string()),
        ("host".to_string(), " Example.COM \t".to_string())
    );
}

#[test]
fn parse_header_without_colon_is_all_name() {
    assert_eq!(
        parse_header("X-Flag".to_string()),
        ("x-flag".to_string(), "".to_string())
    );
}

#[test]
fn parse_header_with_leading_colon_has_empty_name() {
    assert_eq!(
        parse_header(":Value".to_string()),
        ("".to_string(), "Value".to_string())
    );
}

#[test]
fn parse_header_with_trailing_colon_has_empty_value() {
    assert_eq!(
        parse_header("Name:".to_string()),
        ("name".to_string(), "".to_string())
    );
}

#[test]
fn parse_header_of_a_lone_colon() {
    assert_eq!(
        parse_header(":".to_string()),
        ("".to_string(), "".to_string())
    );
}

#[test]
fn parse_header_counts_characters_not_bytes() {
    assert_eq!(
        parse_header("Stra\u{df}e-\u{c4}:\u{d6}l:\u{dc}".to_string()),
        ("stra\u{df}e-\u{e4}".to_string(), "\u{d6}l:\u{dc}".to_string())
    );
}

#[test]
fn split_header_keeps_the_case_of_the_name() {
    assert_eq!(
        split_header("Host:0.0.0.0:3000"),
        ("Host".to_string(), "0.0.0.0:3000".to_string())
    );
    assert_eq!(split_header("Accept"), ("Accept".to_string(), "".to_string()));
    assert_eq!(split_header(""), ("".to_string(), "".to_string()));
    assert_eq!(split_header("a::b"), ("a".to_string(), ":b".to_string()));
}

#[test]
fn split_header_parts_rejoin_to_the_line() {
    let line = "X-Forwarded-For: 10.0.0.1: 10.0.0.2";
    let (name, value) = split_header(line);
    assert!(!name.contains(':'));
    assert_eq!(format!("{}:{}", name, value), line);
}
