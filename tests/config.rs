use todo_api::config::{
    listen_address, resolve_config, ConfigError, ConfigRole, ConnectParams, ConnectionEnv,
    DbConfig,
};

fn some(s: &str) -> Option<String> {
    Some(s.to_string())
}

fn full_env() -> ConnectionEnv {
    ConnectionEnv {
        database_url: None,
        host: some("db.example"),
        user: some("app"),
        password: some("pw"),
        database: some("todos"),
    }
}

#[test]
fn connection_string_is_used_verbatim() {
    let url = "postgres://app@db.example/todos?sslmode=require&channel_binding=require";
    let mut env = full_env();
    env.database_url = some(url);
    assert_eq!(resolve_config(env), Ok(DbConfig::Url(url.to_string())));
    let bare = ConnectionEnv {
        database_url: some("x"),
        host: None,
        user: None,
        password: None,
        database: None,
    };
    assert_eq!(resolve_config(bare), Ok(DbConfig::Url("x".to_string())));
}

#[test]
fn discrete_parameters_require_tls() {
    let expected = DbConfig::Params(ConnectParams {
        host: "db.example".to_string(),
        user: "app".to_string(),
        password: "pw".to_string(),
        database: "todos".to_string(),
        tls_required: true,
    });
    assert_eq!(resolve_config(full_env()), Ok(expected));
}

#[test]
fn each_missing_parameter_is_named() {
    let mut e = full_env();
    e.host = None;
    assert_eq!(resolve_config(e), Err(ConfigError::Missing(ConfigRole::Host)));
    let mut e = full_env();
    e.user = None;
    assert_eq!(resolve_config(e), Err(ConfigError::Missing(ConfigRole::User)));
    let mut e = full_env();
    e.password = None;
    assert_eq!(resolve_config(e), Err(ConfigError::Missing(ConfigRole::Password)));
    let mut e = full_env();
    e.database = None;
    assert_eq!(resolve_config(e), Err(ConfigError::Missing(ConfigRole::Database)));
}

#[test]
fn first_missing_parameter_wins() {
    let mut e = full_env();
    e.user = None;
    e.database = None;
    assert_eq!(resolve_config(e), Err(ConfigError::Missing(ConfigRole::User)));
}

#[test]
fn error_message_names_role_only() {
    let m = ConfigError::Missing(ConfigRole::Password).message();
    assert_eq!(m, "missing database connection parameter: password");
    assert_eq!(ConfigRole::Host.name(), "host");
    assert_eq!(ConfigRole::Database.name(), "database");
}

#[test]
fn listen_address_defaults_to_3000() {
    assert_eq!(listen_address(None), "0.0.0.0:3000");
    assert_eq!(listen_address(Some("8080".to_string())), "0.0.0.0:8080");
}
