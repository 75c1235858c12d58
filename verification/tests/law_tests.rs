use std::str::FromStr;

use pleme_config::sources::{
    build_error, default_config_path, deserialize_error, resolve_environment, source_layers,
    SourceLayer,
};
use pleme_config::text::u16_to_decimal;
use pleme_config::{
    default_connection_timeout, default_environment, default_log_level, default_max_connections,
    default_redis_pool_size, CommonConfig, ConfigError, DatabaseConfig, ProductConfig, RedisConfig,
    RunMode, ServerConfig,
};

fn env(name: &str) -> CommonConfig {
    CommonConfig {
        port: 8080,
        log_level: default_log_level(),
        git_sha: String::new(),
        environment: name.to_string(),
    }
}

fn database(url: &str) -> DatabaseConfig {
    DatabaseConfig {
        database_url: url.to_string(),
        max_connections: default_max_connections(),
        connection_timeout_secs: default_connection_timeout(),
    }
}

#[test]
fn run_mode_name_reads_back() {
    for mode in [RunMode::Api, RunMode::Migrate, RunMode::Worker, RunMode::Promote] {
        assert_eq!(RunMode::from_str(&mode.to_string()).unwrap(), mode);
    }
}

#[test]
fn run_mode_ignores_case() {
    assert_eq!(RunMode::parse("Worker").unwrap(), RunMode::Worker);
    assert_eq!(RunMode::parse("PROMOTE").unwrap(), RunMode::Promote);
    assert_eq!(RunMode::parse("mIgRaTe").unwrap(), RunMode::Migrate);
}

#[test]
fn run_mode_rejects_other_text() {
    let err = RunMode::parse("Workers").unwrap_err();
    assert_eq!(
        err,
        ConfigError::InvalidValue {
            variable: "RUN_MODE".to_string(),
            message: "Invalid run mode 'Workers'. Valid values: api, migrate, worker, promote"
                .to_string(),
        }
    );
    assert!(RunMode::parse("").is_err());
    assert!(RunMode::parse(" api").is_err());
}

#[test]
fn run_mode_from_lowercase_name_uses_given_form() {
    assert_eq!(RunMode::from_lowercase_name("api", "ANYTHING").unwrap(), RunMode::Api);
    let err = RunMode::from_lowercase_name("nope", "NoPe").unwrap_err();
    assert_eq!(
        err,
        ConfigError::InvalidValue {
            variable: "RUN_MODE".to_string(),
            message: "Invalid run mode 'NoPe'. Valid values: api, migrate, worker, promote"
                .to_string(),
        }
    );
}

#[test]
fn server_is_in_exactly_one_mode() {
    for mode in [RunMode::Api, RunMode::Migrate, RunMode::Worker, RunMode::Promote] {
        let c = ServerConfig { host: "h".to_string(), port: 1, run_mode: mode };
        let flags = [c.is_api_mode(), c.is_migrate_mode(), c.is_worker_mode(), c.is_promote_mode()];
        assert_eq!(flags.iter().filter(|b| **b).count(), 1);
    }
}

#[test]
fn deployments_are_exclusive() {
    for name in ["production", "prod", "development", "dev", "staging", "stage", "qa", "", "Production"] {
        let c = env(name);
        let n = [c.is_production(), c.is_development(), c.is_staging()]
            .iter()
            .filter(|b| **b)
            .count();
        assert!(n <= 1);
    }
    assert!(env("prod").is_production());
    assert!(env("dev").is_development());
    assert!(env("stage").is_staging());
    assert!(env("staging").is_staging());
    assert!(!env("Production").is_production());
}

#[test]
fn default_environment_is_development() {
    let c = env(&default_environment());
    assert!(c.is_development());
    assert_eq!(default_log_level(), "info");
}

#[test]
fn address_string_formats_port_in_decimal() {
    let c = ServerConfig { host: "0.0.0.0".to_string(), port: 0, run_mode: RunMode::Api };
    assert_eq!(c.address_string(), "0.0.0.0:0");
    let c = ServerConfig { host: "::1".to_string(), port: 65535, run_mode: RunMode::Api };
    assert_eq!(c.address_string(), "::1:65535");
    assert_eq!(u16_to_decimal(10), "10");
    assert_eq!(u16_to_decimal(8080), "8080");
}

#[test]
fn socket_addr_error_message() {
    assert_eq!(
        ServerConfig::socket_addr_error("bad"),
        ConfigError::InvalidValue {
            variable: "HOST/PORT".to_string(),
            message: "Failed to parse socket address: bad".to_string(),
        }
    );
}

#[test]
fn product_validation_errors() {
    let p = |id: &str| ProductConfig { product_id: id.to_string(), product_name: None, tenant_id: None };
    assert_eq!(
        p("").validate(),
        Err(ConfigError::Validation("Product ID cannot be empty".to_string()))
    );
    assert_eq!(
        p("abc_def").validate(),
        Err(ConfigError::Validation(
            "Product ID must be lowercase alphanumeric with hyphens".to_string()
        ))
    );
    assert_eq!(
        p("añb").validate(),
        Err(ConfigError::Validation(
            "Product ID must be lowercase alphanumeric with hyphens".to_string()
        ))
    );
    assert!(p("a-0-z9").validate().is_ok());
    assert!(p("-").validate().is_ok());
}

#[test]
fn database_url_without_port_uses_postgres_port() {
    let c = database("postgres://db.example.com/app");
    assert_eq!(c.port().unwrap(), 5432);
    assert_eq!(c.host().unwrap(), "db.example.com");
    assert_eq!(DatabaseConfig::port_or_default(None), 5432);
    assert_eq!(DatabaseConfig::port_or_default(Some(1)), 1);
}

#[test]
fn database_url_errors() {
    let missing_name = database("postgres://localhost:5433/");
    assert_eq!(
        missing_name.database_name(),
        Err(ConfigError::InvalidValue {
            variable: "DATABASE_URL".to_string(),
            message: "Missing database name".to_string(),
        })
    );
    let not_url = database("not a url");
    assert_eq!(
        not_url.host(),
        Err(ConfigError::InvalidValue {
            variable: "DATABASE_URL".to_string(),
            message: "relative URL without a base".to_string(),
        })
    );
    assert!(not_url.port().is_err());
    assert!(not_url.parse_url().is_err());
    let no_host = database("unix:/run/db.sock");
    assert_eq!(
        no_host.host(),
        Err(ConfigError::InvalidValue {
            variable: "DATABASE_URL".to_string(),
            message: "Missing host".to_string(),
        })
    );
}

#[test]
fn database_name_strips_all_leading_slashes() {
    assert_eq!(DatabaseConfig::database_name_of("///mydb").unwrap(), "mydb");
    assert_eq!(DatabaseConfig::database_name_of("/a/b").unwrap(), "a/b");
    assert!(DatabaseConfig::database_name_of("//").is_err());
    assert!(DatabaseConfig::database_name_of("").is_err());
    assert_eq!(DatabaseConfig::host_of(Some("h".to_string())).unwrap(), "h");
    assert!(DatabaseConfig::host_of(None).is_err());
}

#[test]
fn environment_resolution_order() {
    assert_eq!(resolve_environment(Some("prod".into()), Some("dev".into())), "prod");
    assert_eq!(resolve_environment(None, Some("staging".into())), "staging");
    assert_eq!(resolve_environment(None, None), "development");
}

#[test]
fn source_files_in_priority_order() {
    assert_eq!(default_config_path(), "config");
    assert_eq!(
        source_layers("config", "production"),
        vec![
            SourceLayer::File { name: "config".to_string(), required: false },
            SourceLayer::File { name: "config.production".to_string(), required: false },
            SourceLayer::Environment { separator: "__".to_string(), try_parsing: true },
        ]
    );
    assert_eq!(build_error("x"), ConfigError::Parse("Failed to build config: x".to_string()));
    assert_eq!(
        deserialize_error("y"),
        ConfigError::Parse("Failed to deserialize config: y".to_string())
    );
}

#[test]
fn redis_defaults() {
    let r = RedisConfig { redis_url: "redis://localhost".to_string(), pool_size: default_redis_pool_size() };
    assert_eq!(r.pool_size, 10);
    assert_eq!(default_max_connections(), 10);
    assert_eq!(default_connection_timeout(), 30);
}
