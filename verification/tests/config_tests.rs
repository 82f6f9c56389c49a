use home_server::config::load_config;
use home_server::config::Config;
use home_server::config::ConfigError;
use home_server::state::AppState;

#[test]
fn load_returns_both_fields_verbatim() {
    let r = load_config(Some("localhost".to_string()), Some("8080".to_string()));
    match r {
        Ok(c) => {
            assert_eq!(c.service_host, "localhost");
            assert_eq!(c.service_port, 8080u16);
        }
        Err(_) => panic!("both keys present and well-formed"),
    }
}

#[test]
fn load_applies_no_transformation_beyond_coercion() {
    let r = load_config(Some("  spaced host  ".to_string()), Some("65535".to_string()));
    match r {
        Ok(c) => {
            assert_eq!(c.service_host, "  spaced host  ");
            assert_eq!(c.service_port, 65535u16);
        }
        Err(_) => panic!("both keys present and well-formed"),
    }
}

#[test]
fn load_without_host_yields_no_configuration() {
    let r = load_config(None, Some("8080".to_string()));
    match r {
        Ok(_) => panic!("no configuration may be observable without SERVICE_HOST"),
        Err(e) => {
            assert_eq!(
                e,
                ConfigError::MissingVariable { key: "SERVICE_HOST".to_string() }
            );
            assert!(e.message().contains("SERVICE_HOST"));
        }
    }
}

#[test]
fn load_reports_host_before_port() {
    let r = load_config(None, None);
    match r {
        Err(ConfigError::MissingVariable { key }) => assert_eq!(key, "SERVICE_HOST"),
        _ => panic!("SERVICE_HOST is checked first"),
    }
}

#[test]
fn load_without_port_names_the_port_key() {
    let r = load_config(Some("localhost".to_string()), None);
    match r {
        Ok(_) => panic!("no configuration may be observable without SERVICE_PORT"),
        Err(e) => {
            assert_eq!(
                e,
                ConfigError::MissingVariable { key: "SERVICE_PORT".to_string() }
            );
            assert!(e.message().contains("SERVICE_PORT"));
        }
    }
}

#[test]
fn load_with_uncoercible_port_names_the_raw_value() {
    let r = load_config(Some("localhost".to_string()), Some("abc".to_string()));
    match r {
        Ok(_) => panic!("abc is not a port"),
        Err(e) => {
            assert_eq!(
                e,
                ConfigError::MalformedVariable {
                    key: "SERVICE_PORT".to_string(),
                    raw: "abc".to_string(),
                }
            );
            assert!(e.message().contains("abc"));
        }
    }
}

#[test]
fn load_with_oversized_port_is_malformed() {
    let r = load_config(Some("localhost".to_string()), Some("65536".to_string()));
    match r {
        Err(ConfigError::MalformedVariable { key, raw }) => {
            assert_eq!(key, "SERVICE_PORT");
            assert_eq!(raw, "65536");
        }
        _ => panic!("65536 does not fit a port"),
    }
}

#[test]
fn load_twice_yields_field_wise_equal_configurations() {
    let first = load_config(Some("localhost".to_string()), Some("8080".to_string()));
    let second = load_config(Some("localhost".to_string()), Some("8080".to_string()));
    let a = first.expect("well-formed environment");
    let b = second.expect("well-formed environment");
    assert_eq!(a.service_host, b.service_host);
    assert_eq!(a.service_port, b.service_port);
    assert_eq!(a, b);
}

#[test]
fn missing_variable_message_is_exact() {
    let e = ConfigError::MissingVariable { key: "SERVICE_HOST".to_string() };
    assert_eq!(
        e.message(),
        "get env val error: SERVICE_HOST environment variable not found"
    );
}

#[test]
fn malformed_variable_message_is_exact() {
    let e = ConfigError::MalformedVariable {
        key: "SERVICE_PORT".to_string(),
        raw: "abc".to_string(),
    };
    assert_eq!(e.message(), "parse env val error: SERVICE_PORT, abc");
}

#[test]
fn app_state_exposes_the_configuration_unchanged() {
    let c = Config { service_host: "localhost".to_string(), service_port: 8080u16 };
    let s = AppState::new(c.clone());
    assert_eq!(s.config, c);
}
