//! Application settings, computed from the values of the environment variables
//! that configure the server.
use vstd::prelude::*;

use crate::text::text_eq;

verus! {

/// The environment the application runs in.
#[derive(Debug)]
pub enum AppEnv {
    Development,
    Production,
}

impl AppEnv {
    /// Whether this is the development environment.
    pub fn is_dev(&self) -> (r: bool)
        ensures
            r == (*self is Development),
    {
        match self {
            AppEnv::Development => true,
            AppEnv::Production => false,
        }
    }
}

/// The environment variables that configure the application, each `None`
/// when it is unset (or not valid Unicode).
pub struct EnvValues {
    pub app_name: Option<String>,
    pub app_env: Option<String>,
    pub app_debug: Option<String>,
    pub app_url: Option<String>,
    pub database_url: Option<String>,
    pub db_host: Option<String>,
    pub db_port: Option<String>,
    pub db_database: Option<String>,
    pub db_username: Option<String>,
    pub db_password: Option<String>,
    pub app_addr: Option<String>,
}

/// The application's settings. `addr` is the listening address as written,
/// `host:port`; `from_env` gives settings only when it is a socket address.
pub struct Settings {
    pub app_name: String,
    pub app_env: AppEnv,
    pub app_debug: bool,
    pub app_url: String,
    pub database_url: String,
    pub addr: String,
}

/// The value of a variable, or `default` when it is unset.
pub open spec fn value_or(v: Option<String>, default: Seq<char>) -> Seq<char> {
    match v {
        Some(s) => s@,
        None => default,
    }
}

/// The environment named by `APP_ENV`: production only when it says `production`.
pub open spec fn env_of(values: EnvValues) -> AppEnv {
    if value_or(values.app_env, "development"@) == "production"@ {
        AppEnv::Production
    } else {
        AppEnv::Development
    }
}

/// `APP_DEBUG` read as a boolean: `false` only when it says `false`
/// (`true` when it says `true` or anything that is not a boolean).
pub open spec fn debug_of(values: EnvValues) -> bool {
    value_or(values.app_debug, "true"@) != "false"@
}

/// The database URL: `DATABASE_URL` when set, else one built from the `DB_*`
/// parts (the port is left out when there is no password).
pub open spec fn database_url_of(values: EnvValues) -> Seq<char> {
    match values.database_url {
        Some(u) => u@,
        None => {
            let host = value_or(values.db_host, "localhost"@);
            let port = value_or(values.db_port, "5432"@);
            let db = value_or(values.db_database, "fastclient"@);
            let user = value_or(values.db_username, "postgres"@);
            let password = value_or(values.db_password, Seq::empty());
            if password.len() > 0 {
                "postgres://"@ + user + ":"@ + password + "@"@ + host + ":"@ + port + "/"@ + db
            } else {
                "postgres://"@ + user + "@"@ + host + "/"@ + db
            }
        },
    }
}

fn value_or_default(v: &Option<String>, default: &str) -> (r: String)
    ensures
        r@ == value_or(*v, default@),
{
    match v {
        Some(s) => s.clone(),
        None => default.to_owned(),
    }
}

fn database_url(values: &EnvValues) -> (r: String)
    ensures
        r@ == database_url_of(*values),
{
    match &values.database_url {
        Some(u) => u.clone(),
        None => {
            let host = value_or_default(&values.db_host, "localhost");
            let port = value_or_default(&values.db_port, "5432");
            let db = value_or_default(&values.db_database, "fastclient");
            let username = value_or_default(&values.db_username, "postgres");
            let password = value_or_default(&values.db_password, "");
            proof {
                reveal_strlit("");
            }
            let mut url = "postgres://".to_owned();
            url.append(username.as_str());
            if !password.as_str().is_empty() {
                url.append(":");
                url.append(password.as_str());
                url.append("@");
                url.append(host.as_str());
                url.append(":");
                url.append(port.as_str());
                url.append("/");
                url.append(db.as_str());
            } else {
                url.append("@");
                url.append(host.as_str());
                url.append("/");
                url.append(db.as_str());
            }
            url
        },
    }
}

/// Whether `text` parses as a socket address (`str::parse::<SocketAddr>`:
/// an IPv4 address and port, or a bracketed IPv6 address and port).
pub uninterp spec fn socket_addr_parses(text: Seq<char>) -> bool;

/// Whether `text` is a socket address, by `str::parse::<core::net::SocketAddr>`
/// (a pure parse; nothing is bound or opened). The result is named, not stated.
#[verifier::external_body]
fn is_socket_addr(text: &str) -> (r: bool)
    ensures
        r == socket_addr_parses(text@),
{
    text.parse::<core::net::SocketAddr>().is_ok()
}

/// Why the settings could not be made.
pub enum ConfigError {
    /// The listening address (given here) is not a socket address.
    InvalidAddress(String),
}

/// The listening address that the environment gives.
pub open spec fn addr_of(values: EnvValues) -> Seq<char> {
    value_or(values.app_addr, "0.0.0.0:8000"@)
}

impl Settings {
    /// The settings that the environment variables `values` configure; an error
    /// exactly when the listening address is not a socket address.
    pub fn from_env(values: &EnvValues) -> (r: Result<Settings, ConfigError>)
        ensures
            r is Ok <==> socket_addr_parses(addr_of(*values)),
            r matches Ok(s) ==> {
                &&& s.app_name@ == value_or(values.app_name, "FastClient"@)
                &&& s.app_env == env_of(*values)
                &&& s.app_debug == debug_of(*values)
                &&& s.app_url@ == value_or(values.app_url, "http://localhost:8000"@)
                &&& s.database_url@ == database_url_of(*values)
                &&& s.addr@ == addr_of(*values)
            },
            r matches Err(ConfigError::InvalidAddress(a)) ==> a@ == addr_of(*values),
    {
        let app_name = value_or_default(&values.app_name, "FastClient");
        let env_text = value_or_default(&values.app_env, "development");
        let app_env = if text_eq(env_text.as_str(), "production") {
            AppEnv::Production
        } else {
            AppEnv::Development
        };
        let debug_text = value_or_default(&values.app_debug, "true");
        let app_debug = !text_eq(debug_text.as_str(), "false");
        let app_url = value_or_default(&values.app_url, "http://localhost:8000");
        let database_url = database_url(values);
        let addr = value_or_default(&values.app_addr, "0.0.0.0:8000");
        if !is_socket_addr(addr.as_str()) {
            return Err(ConfigError::InvalidAddress(addr));
        }
        Ok(Settings { app_name, app_env, app_debug, app_url, database_url, addr })
    }
}

} // verus!
