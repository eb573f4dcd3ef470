//! The settings the server starts with.

use vstd::prelude::*;
use crate::text::{decimal_i64, decimal_u16, parse_i64, parse_u16};

verus! {

/// The settings the server starts with.
#[derive(Debug)]
pub struct AppConfig {
    pub database_url: String,
    pub jwt_secret: String,
    pub jwt_expiry_hours: i64,
    pub port: u16,
}

/// A setting that is missing or is no number.
#[derive(Debug, Clone, Copy, PartialEq, Eq, Structural)]
pub enum ConfigError {
    DatabaseUrl,
    JwtSecret,
    JwtExpiryHours,
    Port,
}

impl ConfigError {
    pub open spec fn display(self) -> Seq<char> {
        match self {
            ConfigError::DatabaseUrl => "DATABASE_URL must be set"@,
            ConfigError::JwtSecret => "JWT_SECRET must be set"@,
            ConfigError::JwtExpiryHours => "JWT_EXPIRY_HOURS must be a number"@,
            ConfigError::Port => "PORT must be a number"@,
        }
    }

    /// The error in words.
    pub fn message(&self) -> (text: &'static str)
        ensures
            text@ == self.display(),
    {
        match self {
            ConfigError::DatabaseUrl => "DATABASE_URL must be set",
            ConfigError::JwtSecret => "JWT_SECRET must be set",
            ConfigError::JwtExpiryHours => "JWT_EXPIRY_HOURS must be a number",
            ConfigError::Port => "PORT must be a number",
        }
    }
}

/// The hours a token lasts: the number the text writes, eight where there
/// is no text, nothing where the text writes no number.
pub open spec fn expiry_hours_of(text: Option<String>) -> Option<i64> {
    match text {
        Some(t) => decimal_i64(t@),
        None => Some(8i64),
    }
}

/// The port to listen on: the number the text writes, 8080 where there is
/// no text, nothing where the text writes no number.
pub open spec fn port_of(text: Option<String>) -> Option<u16> {
    match text {
        Some(t) => decimal_u16(t@),
        None => Some(8080u16),
    }
}

impl AppConfig {
    /// The settings that the four values give, each the text of one
    /// variable of the environment or `None` where it is not set.
    ///
    /// The database's address and the token secret must be set. The hours a
    /// token lasts default to eight and the port to 8080; where set, each
    /// must be a number. The first setting that fails is the one reported.
    pub fn from_values(
        database_url: Option<String>,
        jwt_secret: Option<String>,
        jwt_expiry_hours: Option<String>,
        port: Option<String>,
    ) -> (outcome: Result<AppConfig, ConfigError>)
        ensures
            outcome matches Err(error) ==> error == (if database_url is None {
                ConfigError::DatabaseUrl
            } else if jwt_secret is None {
                ConfigError::JwtSecret
            } else if expiry_hours_of(jwt_expiry_hours) is None {
                ConfigError::JwtExpiryHours
            } else {
                ConfigError::Port
            }),
            outcome is Ok == (database_url is Some && jwt_secret is Some && expiry_hours_of(
                jwt_expiry_hours,
            ) is Some && port_of(port) is Some),
            outcome matches Ok(config) ==> {
                &&& Some(config.database_url) == database_url
                &&& Some(config.jwt_secret) == jwt_secret
                &&& Some(config.jwt_expiry_hours) == expiry_hours_of(jwt_expiry_hours)
                &&& Some(config.port) == port_of(port)
            },
    {
        let database_url = match database_url {
            Some(url) => url,
            None => {
                return Err(ConfigError::DatabaseUrl);
            },
        };
        let jwt_secret = match jwt_secret {
            Some(secret) => secret,
            None => {
                return Err(ConfigError::JwtSecret);
            },
        };
        let hours: Option<i64> = match &jwt_expiry_hours {
            Some(text) => parse_i64(text.as_str()),
            None => Some(8),
        };
        let jwt_expiry_hours: i64 = match hours {
            Some(hours) => hours,
            None => {
                return Err(ConfigError::JwtExpiryHours);
            },
        };
        let number: Option<u16> = match &port {
            Some(text) => parse_u16(text.as_str()),
            None => Some(8080),
        };
        let port: u16 = match number {
            Some(port) => port,
            None => {
                return Err(ConfigError::Port);
            },
        };
        Ok(AppConfig { database_url, jwt_secret, jwt_expiry_hours, port })
    }
}

} // verus!
