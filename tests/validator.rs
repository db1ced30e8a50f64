use via_alias::PayloadValidator;

#[test]
fn not_empty_fails() {
    let result = PayloadValidator::new("").not_empty().validate();
    assert!(result.is_err());
    let err = result.unwrap_err();
    assert_eq!(err.len(), 1);
    assert_eq!(err[0], PayloadValidator::ERR_EMPTY);
}

#[test]
fn not_empty_succeeds() {
    let result = PayloadValidator::new("sometext").not_empty().validate();
    assert!(result.is_ok());
}

#[test]
fn max_length_fails() {
    let len = 5;
    let result = PayloadValidator::new("sometext").max_length(len).validate();
    assert!(result.is_err());
    let err = result.unwrap_err();
    assert_eq!(err.len(), 1);
    let expected_err_msg = format!("{} {len}", PayloadValidator::ERR_MAX_LENGTH);
    assert_eq!(err[0], expected_err_msg);
}

#[test]
fn max_length_succeeds() {
    let result = PayloadValidator::new("sometext").max_length(50).validate();
    assert!(result.is_ok());
}

#[test]
fn valid_characters_fails() {
    let result = PayloadValidator::new("sometext_$")
        .valid_characters()
        .validate();
    assert!(result.is_err());
    let err = result.unwrap_err();
    assert_eq!(err.len(), 1);
    assert_eq!(err[0], PayloadValidator::ERR_ALPHANUMERIC);
}

#[test]
fn valid_characters_succeeds() {
    let result = PayloadValidator::new("-abcdefghijklmnopqrstuv-wxyz0123456789-")
        .valid_characters()
        .validate();
    assert!(result.is_ok());
}

#[test]
fn has_url_schema_succeeds_with_http() {
    let result = PayloadValidator::new("http://somedomain.de")
        .has_url_schema()
        .validate();
    assert!(result.is_ok());
}

#[test]
fn has_url_schema_succeeds_with_https() {
    let result = PayloadValidator::new("https://somedomain.de")
        .has_url_schema()
        .validate();
    assert!(result.is_ok());
}

#[test]
fn has_url_schema_fails_with_whitespace() {
    let result = PayloadValidator::new("https://some   domain.de")
        .has_url_schema()
        .validate();
    assert!(result.is_err());
    let err = result.unwrap_err();
    assert_eq!(err.len(), 1);
    assert_eq!(err[0], PayloadValidator::ERR_URL_SCHEMA)
}

#[test]
fn has_url_schema_fails() {
    let result = PayloadValidator::new("hts://somedomain.de")
        .has_url_schema()
        .validate();
    assert!(result.is_err());
    let err = result.unwrap_err();
    assert_eq!(err.len(), 1);
    assert_eq!(err[0], PayloadValidator::ERR_URL_SCHEMA)
}

#[test]
fn validation_combination_fails() {
    let len = 3;
    let result = PayloadValidator::new("sometext_$")
        .not_empty()
        .max_length(len)
        .valid_characters()
        .validate();
    assert!(result.is_err());
    let err = result.unwrap_err();
    assert_eq!(err.len(), 2);
    let expected_errors = [
        PayloadValidator::ERR_ALPHANUMERIC.to_owned(),
        format!("{} {len}", PayloadValidator::ERR_MAX_LENGTH),
    ];
    expected_errors
        .iter()
        .for_each(|e| assert!(err.contains(e)));
}

#[test]
fn validation_combination_succeeds() {
    let len = 50;
    let result = PayloadValidator::new("sometext")
        .not_empty()
        .max_length(len)
        .valid_characters()
        .validate();
    assert!(result.is_ok());
}

#[test]
fn empty_value_breaks_every_alias_rule_but_characters() {
    let result = PayloadValidator::new("")
        .not_empty()
        .max_length(0)
        .valid_characters()
        .validate();
    let err = result.unwrap_err();
    assert_eq!(err, vec!["can not be empty".to_string()]);
}

#[test]
fn max_length_counts_characters_not_bytes() {
    let result = PayloadValidator::new("ääää").max_length(4).validate();
    assert!(result.is_ok());
    let result = PayloadValidator::new("äääää").max_length(4).validate();
    assert_eq!(result.unwrap_err(), vec!["max length is 4".to_string()]);
}

#[test]
fn max_length_message_writes_large_bounds_in_decimal() {
    let long = "a".repeat(2049);
    let result = PayloadValidator::new(&long).max_length(2048).validate();
    assert_eq!(result.unwrap_err(), vec!["max length is 2048".to_string()]);
    let result = PayloadValidator::new("ab").max_length(0).validate();
    assert_eq!(result.unwrap_err(), vec!["max length is 0".to_string()]);
    let result = PayloadValidator::new(&long).max_length(2049).validate();
    assert!(result.is_ok());
}

#[test]
fn has_url_schema_reports_once_when_both_parts_fail() {
    let result = PayloadValidator::new("ftp://a b").has_url_schema().validate();
    assert_eq!(result.unwrap_err().len(), 1);
}

#[test]
fn has_url_schema_finds_unicode_whitespace() {
    let result = PayloadValidator::new("https://a\u{3000}b").has_url_schema().validate();
    assert_eq!(result.unwrap_err(), vec![PayloadValidator::ERR_URL_SCHEMA.to_string()]);
    let result = PayloadValidator::new("https://a\tb").has_url_schema().validate();
    assert!(result.is_err());
}

#[test]
fn has_url_schema_needs_the_whole_prefix() {
    assert!(PayloadValidator::new("http:/").has_url_schema().validate().is_err());
    assert!(PayloadValidator::new("HTTP://x").has_url_schema().validate().is_err());
    assert!(PayloadValidator::new("http://").has_url_schema().validate().is_ok());
}

#[test]
fn decimal_text_writes_digits() {
    assert_eq!(via_alias::validator::decimal_text(0), "0");
    assert_eq!(via_alias::validator::decimal_text(50), "50");
    assert_eq!(via_alias::validator::decimal_text(1234567890), "1234567890");
}
