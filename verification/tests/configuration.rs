use translation_gate::config::ceiling_from_config;
use translation_gate::config::endpoint_from_config;
use translation_gate::config::parse_ceiling;
use translation_gate::ConfigError;
use translation_gate::DEFAULT_CEILING;

#[test]
fn parses_plain_numbers() {
    assert_eq!(parse_ceiling("1"), Ok(1));
    assert_eq!(parse_ceiling("3"), Ok(3));
    assert_eq!(parse_ceiling("42"), Ok(42));
    assert_eq!(parse_ceiling("007"), Ok(7));
    assert_eq!(parse_ceiling("4294967295"), Ok(u32::MAX));
}

#[test]
fn rejects_text_that_is_not_a_positive_number() {
    assert_eq!(parse_ceiling(""), Err(ConfigError::InvalidCeiling));
    assert_eq!(parse_ceiling("abc"), Err(ConfigError::InvalidCeiling));
    assert_eq!(parse_ceiling("3x"), Err(ConfigError::InvalidCeiling));
    assert_eq!(parse_ceiling(" 3"), Err(ConfigError::InvalidCeiling));
    assert_eq!(parse_ceiling("-5"), Err(ConfigError::InvalidCeiling));
    assert_eq!(parse_ceiling("+5"), Err(ConfigError::InvalidCeiling));
    assert_eq!(parse_ceiling("3.5"), Err(ConfigError::InvalidCeiling));
    assert_eq!(parse_ceiling("0"), Err(ConfigError::InvalidCeiling));
    assert_eq!(parse_ceiling("000"), Err(ConfigError::InvalidCeiling));
}

#[test]
fn rejects_numbers_out_of_range() {
    assert_eq!(parse_ceiling("4294967296"), Err(ConfigError::InvalidCeiling));
    assert_eq!(
        parse_ceiling("99999999999999999999"),
        Err(ConfigError::InvalidCeiling)
    );
}

#[test]
fn missing_ceiling_takes_the_default() {
    assert_eq!(DEFAULT_CEILING, 3);
    assert_eq!(ceiling_from_config(None), Ok(DEFAULT_CEILING));
    assert_eq!(ceiling_from_config(Some("7")), Ok(7));
    assert_eq!(
        ceiling_from_config(Some("seven")),
        Err(ConfigError::InvalidCeiling)
    );
}

#[test]
fn endpoint_is_required() {
    assert_eq!(
        endpoint_from_config(Some(String::from("http://localhost:8080/translate"))),
        Ok(String::from("http://localhost:8080/translate"))
    );
    assert_eq!(
        endpoint_from_config(None),
        Err(ConfigError::MissingEndpoint)
    );
}
