use vstd::prelude::*;
use vstd::string::StringExecFns;

verus! {

/// The role of one discrete connection parameter.
#[derive(Clone, Copy, Debug, PartialEq, Eq, Structural)]
pub enum ConfigRole {
    Host,
    User,
    Password,
    Database,
}

impl ConfigRole {
    /// The role's name as shown in a configuration error.
    pub open spec fn spec_name(self) -> Seq<char> {
        match self {
            ConfigRole::Host => "host"@,
            ConfigRole::User => "user"@,
            ConfigRole::Password => "password"@,
            ConfigRole::Database => "database"@,
        }
    }

    pub fn name(&self) -> (r: &'static str)
        ensures
            r@ == self.spec_name(),
    {
        match self {
            ConfigRole::Host => "host",
            ConfigRole::User => "user",
            ConfigRole::Password => "password",
            ConfigRole::Database => "database",
        }
    }
}

/// What the process environment offers for reaching the database: a whole
/// connection string, or the four discrete parameters, each possibly absent.
#[derive(Clone, Debug, PartialEq, Eq)]
pub struct ConnectionEnv {
    pub database_url: Option<String>,
    pub host: Option<String>,
    pub user: Option<String>,
    pub password: Option<String>,
    pub database: Option<String>,
}

/// Discrete connection parameters, complete.
#[derive(Clone, Debug, PartialEq, Eq)]
pub struct ConnectParams {
    pub host: String,
    pub user: String,
    pub password: String,
    pub database: String,
    /// Whether the connection must be encrypted (not merely preferred).
    pub tls_required: bool,
}

/// How to reach the database.
#[derive(Clone, Debug, PartialEq, Eq)]
pub enum DbConfig {
    /// A connection string, used verbatim.
    Url(String),
    /// Discrete parameters.
    Params(ConnectParams),
}

/// Why no database descriptor could be resolved.
#[derive(Clone, Copy, Debug, PartialEq, Eq, Structural)]
pub enum ConfigError {
    /// No connection string was given and this parameter is absent.
    Missing(ConfigRole),
}

impl ConfigError {
    /// A message that names the missing role and none of the given values.
    pub fn message(&self) -> (r: String)
        ensures
            match self {
                ConfigError::Missing(role) => r@ == "missing database connection parameter: "@
                    + role.spec_name(),
            },
    {
        match self {
            ConfigError::Missing(role) => {
                let m = String::from_str("missing database connection parameter: ");
                m.concat(role.name())
            },
        }
    }
}

/// The first discrete parameter of `env` that is absent, in the order host,
/// user, password, database.
pub open spec fn first_missing(env: ConnectionEnv) -> Option<ConfigRole> {
    if env.host is None {
        Some(ConfigRole::Host)
    } else if env.user is None {
        Some(ConfigRole::User)
    } else if env.password is None {
        Some(ConfigRole::Password)
    } else if env.database is None {
        Some(ConfigRole::Database)
    } else {
        None
    }
}

/// Resolves how to reach the database. A connection string wins and is kept
/// as it is; otherwise all four discrete parameters are needed, and the
/// connection they describe requires TLS.
pub fn resolve_config(env: ConnectionEnv) -> (r: Result<DbConfig, ConfigError>)
    ensures
        env.database_url is Some ==> r == Ok::<DbConfig, ConfigError>(
            DbConfig::Url(env.database_url->Some_0),
        ),
        env.database_url is None && first_missing(env) is Some ==> r == Err::<
            DbConfig,
            ConfigError,
        >(ConfigError::Missing(first_missing(env)->Some_0)),
        env.database_url is None && first_missing(env) is None ==> r == Ok::<
            DbConfig,
            ConfigError,
        >(
            DbConfig::Params(
                ConnectParams {
                    host: env.host->Some_0,
                    user: env.user->Some_0,
                    password: env.password->Some_0,
                    database: env.database->Some_0,
                    tls_required: true,
                },
            ),
        ),
{
    let ConnectionEnv { database_url, host, user, password, database } = env;
    if let Some(url) = database_url {
        return Ok(DbConfig::Url(url));
    }
    let host = match host {
        Some(h) => h,
        None => {
            return Err(ConfigError::Missing(ConfigRole::Host));
        },
    };
    let user = match user {
        Some(u) => u,
        None => {
            return Err(ConfigError::Missing(ConfigRole::User));
        },
    };
    let password = match password {
        Some(p) => p,
        None => {
            return Err(ConfigError::Missing(ConfigRole::Password));
        },
    };
    let database = match database {
        Some(d) => d,
        None => {
            return Err(ConfigError::Missing(ConfigRole::Database));
        },
    };
    Ok(DbConfig::Params(ConnectParams { host, user, password, database, tls_required: true }))
}

/// The address the server listens on: all interfaces, on the given port or
/// on port 3000 when none is given.
pub fn listen_address(port: Option<String>) -> (r: String)
    ensures
        match port {
            Some(p) => r@ == "0.0.0.0:"@ + p@,
            None => r@ == "0.0.0.0:3000"@,
        },
{
    match port {
        Some(p) => String::from_str("0.0.0.0:").concat(p.as_str()),
        None => String::from_str("0.0.0.0:3000"),
    }
}

} // verus!
