//! Settings of the server: what the command line and the environment give,
//! and what holds where they give nothing.

use crate::text::{parse_u16, parse_u32, u16_of_text, u32_of_text};
use vstd::prelude::*;
use vstd::string::*;

verus! {

/// Port on which the server listens, unless told otherwise.
pub const DEFAULT_LISTEN_PORT: u16 = 8080;

/// Database of the server, unless told otherwise.
pub const DEFAULT_DATABASE_URL: &'static str = "postgres://127.0.0.1:5432/up";

/// Size of the pool of database connections, unless told otherwise.
pub const DEFAULT_DATABASE_MAX_CONNECTIONS: u32 = 4;

/// Why the server cannot start.
#[derive(Debug)]
pub enum AppError {
    /// The environment lacks the variable `name`, which is needed for
    /// `purpose`.
    MissingEnvironmentVariable { name: String, purpose: String },
    /// A setting is there but cannot be used.
    ConfigurationError(String),
}

impl AppError {
    /// The error in words.
    pub open spec fn text(self) -> Seq<char> {
        match self {
            AppError::MissingEnvironmentVariable { name, purpose } => "required environment variable "@ + name@
                + " is not set, required for "@ + purpose@,
            AppError::ConfigurationError(reason) => "configuration error: "@ + reason@,
        }
    }

    /// The error in words.
    pub fn to_string(&self) -> (r: String)
        ensures
            r@ == self.text(),
    {
        match self {
            AppError::MissingEnvironmentVariable { name, purpose } => {
                let mut r = "required environment variable ".to_string();
                r.append(name.as_str());
                r.append(" is not set, required for ");
                r.append(purpose.as_str());
                r
            },
            AppError::ConfigurationError(reason) => {
                let mut r = "configuration error: ".to_string();
                r.append(reason.as_str());
                r
            },
        }
    }
}

/// The value of the environment variable `name`, which is needed for
/// `purpose`, given what the environment holds under that name.
pub fn env_or_error(name: &str, purpose: &str, value: Option<String>) -> (r: Result<String, AppError>)
    ensures
        r is Ok <==> value is Some,
        r matches Ok(v) ==> v == value->0,
        r matches Err(e) ==> e matches AppError::MissingEnvironmentVariable { name: n, purpose: p } && n@ == name@
            && p@ == purpose@,
{
    match value {
        Some(v) => Ok(v),
        None => Err(AppError::MissingEnvironmentVariable { name: name.to_string(), purpose: purpose.to_string() }),
    }
}

/// The port to listen on, given what the environment holds under `PORT`:
/// the number written there, and the default where nothing or no port
/// number is written.
pub fn default_listen_port(port: Option<&str>) -> (r: u16)
    ensures
        r == match port {
            Some(text) => match u16_of_text(text@) {
                Some(p) => p,
                None => DEFAULT_LISTEN_PORT,
            },
            None => DEFAULT_LISTEN_PORT,
        },
{
    match port {
        Some(text) => match parse_u16(text) {
            Some(p) => p,
            None => DEFAULT_LISTEN_PORT,
        },
        None => DEFAULT_LISTEN_PORT,
    }
}

/// The database to connect to, given what the environment holds under
/// `DATABASE_URL`.
pub fn default_database_url(url: Option<String>) -> (r: String)
    ensures
        r@ == match url {
            Some(u) => u@,
            None => DEFAULT_DATABASE_URL@,
        },
{
    match url {
        Some(u) => u,
        None => DEFAULT_DATABASE_URL.to_string(),
    }
}

/// The size of the connection pool, given what the environment holds
/// under `DATABASE_MAX_CONNECTIONS`: the number written there, and the
/// default where nothing or no number is written.
pub fn default_database_max_connections(value: Option<&str>) -> (r: u32)
    ensures
        r == match value {
            Some(text) => match u32_of_text(text@) {
                Some(n) => n,
                None => DEFAULT_DATABASE_MAX_CONNECTIONS,
            },
            None => DEFAULT_DATABASE_MAX_CONNECTIONS,
        },
{
    match value {
        Some(text) => match parse_u32(text) {
            Some(n) => n,
            None => DEFAULT_DATABASE_MAX_CONNECTIONS,
        },
        None => DEFAULT_DATABASE_MAX_CONNECTIONS,
    }
}

/// Settings of the server.
#[derive(Debug)]
pub struct Args {
    /// Address to listen on, as four numbers.
    pub listen_ip: (u8, u8, u8, u8),
    pub listen_port: u16,
    pub database_url: String,
    pub database_max_connections: u32,
    /// Write log messages as JSON.
    pub json: bool,
    pub disable_background_jobs: bool,
}

impl Args {
    /// The settings of a server that is given none: it listens on the
    /// local host only, and the environment decides the rest.
    pub fn from_environment(port: Option<&str>, database_url: Option<String>, max_connections: Option<&str>) -> (r:
        Self)
        ensures
            r.listen_ip == (127u8, 0u8, 0u8, 1u8),
            !r.json,
            !r.disable_background_jobs,
    {
        Args {
            listen_ip: (127, 0, 0, 1),
            listen_port: default_listen_port(port),
            database_url: default_database_url(database_url),
            database_max_connections: default_database_max_connections(max_connections),
            json: false,
            disable_background_jobs: false,
        }
    }
}

} // verus!
