use api_gateway::config::{AppConfig, LogFormat, DEFAULT_LOG_FILTER};

fn vars(pairs: &[(&str, &str)]) -> Vec<(String, String)> {
    pairs.iter().map(|(name, value)| (name.to_string(), value.to_string())).collect()
}

#[test]
fn test_default_config() {
    let config = AppConfig::load(&vars(&[])).unwrap();

    assert_eq!(config.port, 4000);
    assert_eq!(config.host, "0.0.0.0");
    assert_eq!(config.auth_service_url, "http://localhost:4001");
}

#[test]
fn every_setting_has_its_default() {
    let config = AppConfig::load(&vars(&[("UNRELATED", "1")])).unwrap();
    assert_eq!(config.host, "0.0.0.0");
    assert_eq!(config.port, 4000);
    assert_eq!(config.jwt_secret, "dev-secret-change-in-production");
    assert_eq!(config.auth_service_url, "http://localhost:4001");
    assert_eq!(config.web_bff_url, "http://localhost:4010");
    assert_eq!(config.personal_service_url, "http://localhost:4002");
    assert!(!config.otel_enabled);
    assert_eq!(config.otel_endpoint, "http://localhost:4317");
    assert_eq!(config.otel_service_name, "api-gateway");
    assert_eq!(config.rate_limit_requests_per_minute, 1000);
    assert_eq!(config.rate_limit_burst, 100);
    assert_eq!(config.request_timeout_secs, 30);
    assert_eq!(config.shutdown_timeout_secs, 10);
    assert_eq!(config.connection_pool_size, 100);
    assert_eq!(config.cors_origins, vec!["http://localhost:3000"]);
}

#[test]
fn every_setting_can_be_given() {
    let config = AppConfig::load(&vars(&[
        ("HOST", "127.0.0.1"),
        ("PORT", "8080"),
        ("JWT_SECRET", "s3"),
        ("AUTH_SERVICE_URL", "http://auth"),
        ("WEB_BFF_URL", "http://bff"),
        ("PERSONAL_SERVICE_URL", "http://personal"),
        ("OTEL_ENABLED", "true"),
        ("OTEL_EXPORTER_OTLP_ENDPOINT", "http://otel:4317"),
        ("OTEL_SERVICE_NAME", "edge"),
        ("RATE_LIMIT_REQUESTS_PER_MINUTE", "4294967295"),
        ("RATE_LIMIT_BURST", "+5"),
        ("REQUEST_TIMEOUT_SECS", "18446744073709551615"),
        ("SHUTDOWN_TIMEOUT_SECS", "0"),
        ("CONNECTION_POOL_SIZE", "0012"),
        ("CORS_ORIGINS", "https://a.example , https://b.example"),
    ]))
    .unwrap();
    assert_eq!(config.host, "127.0.0.1");
    assert_eq!(config.port, 8080);
    assert_eq!(config.jwt_secret, "s3");
    assert_eq!(config.auth_service_url, "http://auth");
    assert_eq!(config.web_bff_url, "http://bff");
    assert_eq!(config.personal_service_url, "http://personal");
    assert!(config.otel_enabled);
    assert_eq!(config.otel_endpoint, "http://otel:4317");
    assert_eq!(config.otel_service_name, "edge");
    assert_eq!(config.rate_limit_requests_per_minute, 4294967295);
    assert_eq!(config.rate_limit_burst, 5);
    assert_eq!(config.request_timeout_secs, u64::MAX);
    assert_eq!(config.shutdown_timeout_secs, 0);
    assert_eq!(config.connection_pool_size, 12);
    assert_eq!(config.cors_origins, vec!["https://a.example", "https://b.example"]);
}

#[test]
fn a_number_out_of_range_is_an_error() {
    let cases = [
        ("PORT", "65536"),
        ("PORT", "http"),
        ("PORT", ""),
        ("RATE_LIMIT_REQUESTS_PER_MINUTE", "4294967296"),
        ("RATE_LIMIT_BURST", "-1"),
        ("REQUEST_TIMEOUT_SECS", "18446744073709551616"),
        ("SHUTDOWN_TIMEOUT_SECS", "10s"),
        ("CONNECTION_POOL_SIZE", " 100"),
    ];
    for (name, value) in cases {
        let error = AppConfig::load(&vars(&[(name, value)])).unwrap_err();
        assert_eq!(error.variable, name, "{} = {:?}", name, value);
    }
}

#[test]
fn the_first_bad_number_is_reported() {
    let error = AppConfig::load(&vars(&[
        ("CONNECTION_POOL_SIZE", "x"),
        ("RATE_LIMIT_BURST", "x"),
        ("SHUTDOWN_TIMEOUT_SECS", "x"),
    ]))
    .unwrap_err();
    assert_eq!(error.variable, "RATE_LIMIT_BURST");
}

#[test]
fn tracing_is_enabled_by_the_word_true_only() {
    for (value, enabled) in [("true", true), ("false", false), ("TRUE", false), ("1", false), ("", false)] {
        let config = AppConfig::load(&vars(&[("OTEL_ENABLED", value)])).unwrap();
        assert_eq!(config.otel_enabled, enabled, "{:?}", value);
    }
}

#[test]
fn the_first_of_two_variables_of_one_name_counts() {
    let config = AppConfig::load(&vars(&[("PORT", "1"), ("PORT", "2")])).unwrap();
    assert_eq!(config.port, 1);
}

#[test]
fn production_is_told_by_rust_env() {
    assert!(AppConfig::is_production(&vars(&[("RUST_ENV", "production")])));
    assert!(!AppConfig::is_production(&vars(&[("RUST_ENV", "Production")])));
    assert!(!AppConfig::is_production(&vars(&[("RUST_ENV", "development")])));
    assert!(!AppConfig::is_production(&vars(&[])));
}

#[test]
fn the_log_is_json_in_production_only() {
    assert_eq!(AppConfig::log_format(true), LogFormat::Json);
    assert_eq!(AppConfig::log_format(false), LogFormat::Pretty);
    assert_eq!(DEFAULT_LOG_FILTER, "info,api_gateway=debug,tower_http=debug");
}
