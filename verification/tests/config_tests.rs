use std::str::FromStr;

use pleme_config::{
    default_connection_timeout, default_host, default_max_connections, default_port, CommonConfig,
    DatabaseConfig, ProductConfig, RunMode, ServerConfig,
};

fn common(environment: &str) -> CommonConfig {
    CommonConfig {
        port: 9000,
        log_level: "debug".to_string(),
        git_sha: "abc123".to_string(),
        environment: environment.to_string(),
    }
}

fn product(id: &str, name: Option<&str>, tenant: Option<&str>) -> ProductConfig {
    ProductConfig {
        product_id: id.to_string(),
        product_name: name.map(|s| s.to_string()),
        tenant_id: tenant.map(|s| s.to_string()),
    }
}

fn database(url: &str) -> DatabaseConfig {
    DatabaseConfig {
        database_url: url.to_string(),
        max_connections: default_max_connections(),
        connection_timeout_secs: default_connection_timeout(),
    }
}

#[test]
fn test_run_mode_parsing() {
    assert_eq!(RunMode::from_str("api").unwrap(), RunMode::Api);
    assert_eq!(RunMode::from_str("API").unwrap(), RunMode::Api);
    assert_eq!(RunMode::from_str("migrate").unwrap(), RunMode::Migrate);
    assert_eq!(RunMode::from_str("worker").unwrap(), RunMode::Worker);
    assert_eq!(RunMode::from_str("promote").unwrap(), RunMode::Promote);

    assert!(RunMode::from_str("invalid").is_err());
}

#[test]
fn test_run_mode_display() {
    assert_eq!(RunMode::Api.to_string(), "api");
    assert_eq!(RunMode::Migrate.to_string(), "migrate");
    assert_eq!(RunMode::Worker.to_string(), "worker");
    assert_eq!(RunMode::Promote.to_string(), "promote");
}

#[test]
fn test_product_config_validation() {
    let valid_config = ProductConfig {
        product_id: "my-product".to_string(),
        product_name: None,
        tenant_id: None,
    };
    assert!(valid_config.validate().is_ok());

    let empty_id = ProductConfig {
        product_id: "".to_string(),
        product_name: None,
        tenant_id: None,
    };
    assert!(empty_id.validate().is_err());

    let invalid_chars = ProductConfig {
        product_id: "My_Product".to_string(),
        product_name: None,
        tenant_id: None,
    };
    assert!(invalid_chars.validate().is_err());
}

#[test]
fn test_common_config() {
    let config = common("production");
    assert_eq!(config.port, 9000);
    assert_eq!(config.log_level, "debug");
    assert_eq!(config.git_sha, "abc123");
    assert!(config.is_production());
    assert!(!config.is_development());
}

#[test]
fn test_database_config_parsing() {
    let config = database("postgres://localhost:5433/mydb");
    assert_eq!(config.host().unwrap(), "localhost");
    assert_eq!(config.port().unwrap(), 5433);
    assert_eq!(config.database_name().unwrap(), "mydb");
}

#[test]
fn test_server_config() {
    let config = ServerConfig {
        host: "127.0.0.1".to_string(),
        port: 3000,
        run_mode: RunMode::from_str("worker").unwrap(),
    };
    assert_eq!(config.host, "127.0.0.1");
    assert_eq!(config.port, 3000);
    assert_eq!(config.run_mode, RunMode::Worker);
    assert!(config.is_worker_mode());
    assert!(!config.is_api_mode());
    assert_eq!(config.address_string(), "127.0.0.1:3000");
}

#[test]
fn test_server_config_defaults() {
    let config = ServerConfig {
        host: default_host(),
        port: default_port(),
        run_mode: RunMode::default(),
    };
    assert_eq!(config.host, "0.0.0.0");
    assert_eq!(config.port, 8080);
    assert_eq!(config.run_mode, RunMode::Api);
}

#[test]
fn test_product_config() {
    let config = product("lilitu", Some("Lilitu"), Some("tenant-123"));
    assert_eq!(config.product_id, "lilitu");
    assert_eq!(config.display_name(), "Lilitu");
    assert_eq!(config.tenant_id(), "tenant-123");

    config.validate().unwrap();
}

#[test]
fn test_product_config_defaults() {
    let config = product("novaskyn", None, None);
    assert_eq!(config.product_id, "novaskyn");
    assert_eq!(config.display_name(), "novaskyn");
    assert_eq!(config.tenant_id(), "novaskyn");
}
