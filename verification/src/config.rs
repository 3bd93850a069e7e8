//! The settings of the gateway, as its environment gives them.
//!
//! The environment is a list of variables, each a name and a value.
//! A setting whose variable is missing takes its default.

use vstd::prelude::*;
use crate::number::{parse_unsigned, parsed_unsigned};
use crate::text::{split_trimmed, text_of, trimmed_list};

verus! {

/// The settings of the gateway.
#[derive(Debug, Clone)]
pub struct AppConfig {
    pub host: String,
    pub port: u16,
    pub jwt_secret: String,
    pub auth_service_url: String,
    pub web_bff_url: String,
    pub personal_service_url: String,
    pub otel_enabled: bool,
    pub otel_endpoint: String,
    pub otel_service_name: String,
    pub rate_limit_requests_per_minute: u32,
    pub rate_limit_burst: u32,
    pub request_timeout_secs: u64,
    pub shutdown_timeout_secs: u64,
    pub connection_pool_size: usize,
    pub cors_origins: Vec<String>,
}

/// A setting that could not be read: the value of the variable is not
/// a number that the setting can take.
#[derive(Debug, Clone, Copy)]
pub struct ConfigError {
    pub variable: &'static str,
}

/// How the gateway writes its log.
#[derive(Debug, Clone, Copy, PartialEq, Eq, Structural)]
pub enum LogFormat {
    /// One JSON object a line, for machines to read.
    Json,
    /// Laid out for people to read.
    Pretty,
}

/// The filter on log lines that applies where the environment sets
/// none.
pub const DEFAULT_LOG_FILTER: &'static str = "info,api_gateway=debug,tower_http=debug";

/// The settings as plain values.
pub ghost struct ConfigView {
    pub host: Seq<char>,
    pub port: nat,
    pub jwt_secret: Seq<char>,
    pub auth_service_url: Seq<char>,
    pub web_bff_url: Seq<char>,
    pub personal_service_url: Seq<char>,
    pub otel_enabled: bool,
    pub otel_endpoint: Seq<char>,
    pub otel_service_name: Seq<char>,
    pub rate_limit_requests_per_minute: nat,
    pub rate_limit_burst: nat,
    pub request_timeout_secs: nat,
    pub shutdown_timeout_secs: nat,
    pub connection_pool_size: nat,
    pub cors_origins: Seq<Seq<char>>,
}

impl View for AppConfig {
    type V = ConfigView;

    open spec fn view(&self) -> ConfigView {
        ConfigView {
            host: self.host@,
            port: self.port as nat,
            jwt_secret: self.jwt_secret@,
            auth_service_url: self.auth_service_url@,
            web_bff_url: self.web_bff_url@,
            personal_service_url: self.personal_service_url@,
            otel_enabled: self.otel_enabled,
            otel_endpoint: self.otel_endpoint@,
            otel_service_name: self.otel_service_name@,
            rate_limit_requests_per_minute: self.rate_limit_requests_per_minute as nat,
            rate_limit_burst: self.rate_limit_burst as nat,
            request_timeout_secs: self.request_timeout_secs as nat,
            shutdown_timeout_secs: self.shutdown_timeout_secs as nat,
            connection_pool_size: self.connection_pool_size as nat,
            cors_origins: Seq::new(self.cors_origins@.len(), |i: int| self.cors_origins@[i]@),
        }
    }
}

/// An environment as plain values: names and values, in order.
pub type Vars = Seq<(Seq<char>, Seq<char>)>;

/// The plain values of an environment.
pub open spec fn vars_of(vars: Seq<(String, String)>) -> Vars {
    Seq::new(vars.len(), |i: int| (vars[i].0@, vars[i].1@))
}

/// The value of the first variable of the given name at or after
/// position `from`.
pub open spec fn lookup_from(vars: Vars, name: Seq<char>, from: int) -> Option<Seq<char>>
    decreases vars.len() - from,
{
    if from >= vars.len() {
        None
    } else if vars[from].0 == name {
        Some(vars[from].1)
    } else {
        lookup_from(vars, name, from + 1)
    }
}

/// The value of a setting: that of the first variable of the given
/// name, or the default where there is no such variable.
pub open spec fn setting(vars: Vars, name: Seq<char>, default: Seq<char>) -> Seq<char> {
    match lookup_from(vars, name, 0) {
        Some(value) => value,
        None => default,
    }
}

/// The value of a numeric setting, if it is a number of at most `max`.
pub open spec fn number(vars: Vars, name: Seq<char>, default: Seq<char>, max: nat) -> Option<nat> {
    parsed_unsigned(setting(vars, name, default), max)
}

/// The settings that an environment gives, or the name of the first
/// variable, in the order port, requests per minute, burst, request
/// timeout, shutdown timeout, pool size, whose value is not a number
/// that its setting can take.
pub open spec fn loaded(vars: Vars) -> Result<ConfigView, Seq<char>> {
    let port = number(vars, "PORT"@, "4000"@, u16::MAX as nat);
    let per_minute = number(vars, "RATE_LIMIT_REQUESTS_PER_MINUTE"@, "1000"@, u32::MAX as nat);
    let burst = number(vars, "RATE_LIMIT_BURST"@, "100"@, u32::MAX as nat);
    let request_timeout = number(vars, "REQUEST_TIMEOUT_SECS"@, "30"@, u64::MAX as nat);
    let shutdown_timeout = number(vars, "SHUTDOWN_TIMEOUT_SECS"@, "10"@, u64::MAX as nat);
    let pool_size = number(vars, "CONNECTION_POOL_SIZE"@, "100"@, usize::MAX as nat);
    if port is None {
        Err("PORT"@)
    } else if per_minute is None {
        Err("RATE_LIMIT_REQUESTS_PER_MINUTE"@)
    } else if burst is None {
        Err("RATE_LIMIT_BURST"@)
    } else if request_timeout is None {
        Err("REQUEST_TIMEOUT_SECS"@)
    } else if shutdown_timeout is None {
        Err("SHUTDOWN_TIMEOUT_SECS"@)
    } else if pool_size is None {
        Err("CONNECTION_POOL_SIZE"@)
    } else {
        Ok(
            ConfigView {
                host: setting(vars, "HOST"@, "0.0.0.0"@),
                port: port->0,
                jwt_secret: setting(vars, "JWT_SECRET"@, "dev-secret-change-in-production"@),
                auth_service_url: setting(vars, "AUTH_SERVICE_URL"@, "http://localhost:4001"@),
                web_bff_url: setting(vars, "WEB_BFF_URL"@, "http://localhost:4010"@),
                personal_service_url: setting(
                    vars,
                    "PERSONAL_SERVICE_URL"@,
                    "http://localhost:4002"@,
                ),
                otel_enabled: setting(vars, "OTEL_ENABLED"@, "false"@) == "true"@,
                otel_endpoint: setting(
                    vars,
                    "OTEL_EXPORTER_OTLP_ENDPOINT"@,
                    "http://localhost:4317"@,
                ),
                otel_service_name: setting(vars, "OTEL_SERVICE_NAME"@, "api-gateway"@),
                rate_limit_requests_per_minute: per_minute->0,
                rate_limit_burst: burst->0,
                request_timeout_secs: request_timeout->0,
                shutdown_timeout_secs: shutdown_timeout->0,
                connection_pool_size: pool_size->0,
                cors_origins: trimmed_list(
                    setting(vars, "CORS_ORIGINS"@, "http://localhost:3000"@),
                ),
            },
        )
    }
}

/// Whether the environment says that the gateway runs in production:
/// its variable `RUST_ENV` reads `production`.
pub open spec fn production(vars: Vars) -> bool {
    lookup_from(vars, "RUST_ENV"@, 0) == Some("production"@)
}

/// The outcome of loading as plain values.
pub open spec fn outcome(result: Result<AppConfig, ConfigError>) -> Result<ConfigView, Seq<char>> {
    match result {
        Ok(config) => Ok(config@),
        Err(error) => Err(error.variable@),
    }
}

/// The value of the first variable of the given name.
fn lookup<'a>(vars: &'a Vec<(String, String)>, name: &str) -> (value: Option<&'a str>)
    ensures
        text_of(value) == lookup_from(vars_of(vars@), name@, 0),
{
    let key = name.to_owned();
    let n: usize = vars.len();
    let mut i: usize = 0;
    while i < n
        invariant
            i <= n,
            n == vars@.len(),
            key@ == name@,
            lookup_from(vars_of(vars@), name@, 0) == lookup_from(vars_of(vars@), name@, i as int),
        decreases n - i,
    {
        if vars[i].0 == key {
            return Some(vars[i].1.as_str());
        }
        i += 1;
    }
    None
}

fn text_setting(vars: &Vec<(String, String)>, name: &str, default: &str) -> (value: String)
    ensures
        value@ == setting(vars_of(vars@), name@, default@),
{
    match lookup(vars, name) {
        Some(value) => value.to_owned(),
        None => default.to_owned(),
    }
}

fn number_setting(vars: &Vec<(String, String)>, name: &str, default: &str, max: u64) -> (value:
    Option<u64>)
    ensures
        value is Some <==> number(vars_of(vars@), name@, default@, max as nat) is Some,
        value is Some ==> value->0 == number(vars_of(vars@), name@, default@, max as nat)->0,
        value is Some ==> value->0 <= max,
{
    match lookup(vars, name) {
        Some(value) => parse_unsigned(value, max),
        None => parse_unsigned(default, max),
    }
}

impl AppConfig {
    /// Reads the settings from an environment.
    pub fn load(vars: &Vec<(String, String)>) -> (result: Result<AppConfig, ConfigError>)
        ensures
            outcome(result) == loaded(vars_of(vars@)),
    {
        let port = match number_setting(vars, "PORT", "4000", 65535) {
            Some(port) => port as u16,
            None => {
                return Err(ConfigError { variable: "PORT" });
            },
        };
        let per_minute = match number_setting(
            vars,
            "RATE_LIMIT_REQUESTS_PER_MINUTE",
            "1000",
            0xffff_ffff,
        ) {
            Some(per_minute) => per_minute as u32,
            None => {
                return Err(ConfigError { variable: "RATE_LIMIT_REQUESTS_PER_MINUTE" });
            },
        };
        let burst = match number_setting(vars, "RATE_LIMIT_BURST", "100", 0xffff_ffff) {
            Some(burst) => burst as u32,
            None => {
                return Err(ConfigError { variable: "RATE_LIMIT_BURST" });
            },
        };
        let request_timeout = match number_setting(vars, "REQUEST_TIMEOUT_SECS", "30", u64::MAX) {
            Some(secs) => secs,
            None => {
                return Err(ConfigError { variable: "REQUEST_TIMEOUT_SECS" });
            },
        };
        let shutdown_timeout = match number_setting(vars, "SHUTDOWN_TIMEOUT_SECS", "10", u64::MAX) {
            Some(secs) => secs,
            None => {
                return Err(ConfigError { variable: "SHUTDOWN_TIMEOUT_SECS" });
            },
        };
        let pool_size = match number_setting(
            vars,
            "CONNECTION_POOL_SIZE",
            "100",
            usize::MAX as u64,
        ) {
            Some(size) => size as usize,
            None => {
                return Err(ConfigError { variable: "CONNECTION_POOL_SIZE" });
            },
        };
        let enabled = text_setting(vars, "OTEL_ENABLED", "false");
        let origins = text_setting(vars, "CORS_ORIGINS", "http://localhost:3000");
        let config = AppConfig {
            host: text_setting(vars, "HOST", "0.0.0.0"),
            port,
            jwt_secret: text_setting(vars, "JWT_SECRET", "dev-secret-change-in-production"),
            auth_service_url: text_setting(vars, "AUTH_SERVICE_URL", "http://localhost:4001"),
            web_bff_url: text_setting(vars, "WEB_BFF_URL", "http://localhost:4010"),
            personal_service_url: text_setting(
                vars,
                "PERSONAL_SERVICE_URL",
                "http://localhost:4002",
            ),
            otel_enabled: enabled == "true".to_owned(),
            otel_endpoint: text_setting(
                vars,
                "OTEL_EXPORTER_OTLP_ENDPOINT",
                "http://localhost:4317",
            ),
            otel_service_name: text_setting(vars, "OTEL_SERVICE_NAME", "api-gateway"),
            rate_limit_requests_per_minute: per_minute,
            rate_limit_burst: burst,
            request_timeout_secs: request_timeout,
            shutdown_timeout_secs: shutdown_timeout,
            connection_pool_size: pool_size,
            cors_origins: split_trimmed(origins.as_str()),
        };
        assert(config@.cors_origins =~= trimmed_list(origins@));
        Ok(config)
    }

    /// The form of the log: JSON in production, pretty elsewhere.
    pub fn log_format(production: bool) -> (format: LogFormat)
        ensures
            format == (if production {
                LogFormat::Json
            } else {
                LogFormat::Pretty
            }),
    {
        if production {
            LogFormat::Json
        } else {
            LogFormat::Pretty
        }
    }

    /// Whether the environment says that the gateway runs in
    /// production.
    pub fn is_production(vars: &Vec<(String, String)>) -> (yes: bool)
        ensures
            yes == production(vars_of(vars@)),
    {
        match lookup(vars, "RUST_ENV") {
            Some(value) => value.to_owned() == "production".to_owned(),
            None => false,
        }
    }
}

} // verus!
