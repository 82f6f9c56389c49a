use home_server::config::env_get;
use home_server::config::env_parse;
use home_server::config::ConfigError;

#[test]
fn env_get_hands_a_present_value_back_verbatim() {
    let r = env_get("SERVICE_HOST", Some("localhost".to_string()));
    assert_eq!(r, Ok("localhost".to_string()));
}

#[test]
fn env_get_reports_a_missing_key_by_name() {
    let r = env_get("SERVICE_HOST", None);
    assert_eq!(
        r,
        Err(ConfigError::MissingVariable { key: "SERVICE_HOST".to_string() })
    );
}

#[test]
fn env_parse_coerces_a_well_formed_value() {
    let r = env_parse("SERVICE_PORT", Some("8080".to_string()));
    assert_eq!(r, Ok(8080u16));
}

#[test]
fn env_parse_reports_a_missing_key_by_name() {
    let r = env_parse("SERVICE_PORT", None);
    assert_eq!(
        r,
        Err(ConfigError::MissingVariable { key: "SERVICE_PORT".to_string() })
    );
}

#[test]
fn env_parse_carries_the_rejected_text() {
    let r = env_parse("SERVICE_PORT", Some("abc".to_string()));
    assert_eq!(
        r,
        Err(ConfigError::MalformedVariable {
            key: "SERVICE_PORT".to_string(),
            raw: "abc".to_string(),
        })
    );
}
