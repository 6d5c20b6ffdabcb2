//! Configuration, as read from the environment by the caller.

use vstd::prelude::*;

verus! {

/// The token lifetime used where `JWT_EXPIRY_HOURS` is missing or no number.
pub const DEFAULT_JWT_EXPIRY_HOURS: i64 = 24;

pub const DEFAULT_SERVER_ADDRESS: &'static str = "0.0.0.0:3003";

pub const DEFAULT_ROBOT_API_KEY: &'static str = "secret-robot-key";

#[derive(Debug, PartialEq, Eq)]
pub struct Config {
    pub database_url: String,
    pub redis_url: String,
    pub jwt_secret: String,
    pub jwt_expiry_hours: i64,
    pub server_address: String,
    pub robot_api_key: String,
}

/// A variable that must be set is not.
#[derive(Clone, Copy, Debug, PartialEq, Eq, Structural)]
pub enum ConfigError {
    MissingDatabaseUrl,
    MissingRedisUrl,
    MissingJwtSecret,
}

/// The number that `str::parse::<i64>` reads from a text; `None` where it
/// reports an error.
pub uninterp spec fn parsed_i64(text: Seq<char>) -> Option<i64>;

/// Calls `str::parse::<i64>`. The contract only names the result.
#[verifier::external_body]
fn parse_i64(text: &str) -> (n: Option<i64>)
    ensures
        n == parsed_i64(text@),
{
    match text.parse::<i64>() {
        Ok(n) => Some(n),
        Err(_) => None,
    }
}

/// The token lifetime that the variable gives: its number, or the default
/// where it is missing or no number.
pub open spec fn expiry_hours_of(var: Option<String>) -> i64 {
    match var {
        Some(text) => match parsed_i64(text@) {
            Some(n) => n,
            None => DEFAULT_JWT_EXPIRY_HOURS,
        },
        None => DEFAULT_JWT_EXPIRY_HOURS,
    }
}

/// The value of a variable, or a default where it is missing.
pub open spec fn text_or(var: Option<String>, default: Seq<char>) -> Seq<char> {
    match var {
        Some(text) => text@,
        None => default,
    }
}

fn or_default(var: Option<String>, default: &str) -> (text: String)
    ensures
        text@ == text_or(var, default@),
{
    match var {
        Some(text) => text,
        None => default.to_owned(),
    }
}

impl Config {
    /// Builds the configuration from the values of `DATABASE_URL`,
    /// `REDIS_URL`, `JWT_SECRET`, `JWT_EXPIRY_HOURS`, `SERVER_ADDRESS` and
    /// `ROBOT_API_KEY`, each `None` where the variable is not set. The first
    /// three must be set; the others have defaults.
    pub fn from_vars(
        database_url: Option<String>,
        redis_url: Option<String>,
        jwt_secret: Option<String>,
        jwt_expiry_hours: Option<String>,
        server_address: Option<String>,
        robot_api_key: Option<String>,
    ) -> (config: Result<Config, ConfigError>)
        ensures
            database_url is None ==> config == Err::<Config, ConfigError>(
                ConfigError::MissingDatabaseUrl,
            ),
            database_url is Some && redis_url is None ==> config == Err::<Config, ConfigError>(
                ConfigError::MissingRedisUrl,
            ),
            database_url is Some && redis_url is Some && jwt_secret is None ==> config == Err::<
                Config,
                ConfigError,
            >(ConfigError::MissingJwtSecret),
            database_url is Some && redis_url is Some && jwt_secret is Some ==> config is Ok
                && config->Ok_0.database_url == database_url->0 && config->Ok_0.redis_url
                == redis_url->0 && config->Ok_0.jwt_secret == jwt_secret->0
                && config->Ok_0.jwt_expiry_hours == expiry_hours_of(jwt_expiry_hours)
                && config->Ok_0.server_address@ == text_or(server_address, "0.0.0.0:3003"@)
                && config->Ok_0.robot_api_key@ == text_or(robot_api_key, "secret-robot-key"@),
    {
        let database_url = match database_url {
            Some(v) => v,
            None => {
                return Err(ConfigError::MissingDatabaseUrl);
            },
        };
        let redis_url = match redis_url {
            Some(v) => v,
            None => {
                return Err(ConfigError::MissingRedisUrl);
            },
        };
        let jwt_secret = match jwt_secret {
            Some(v) => v,
            None => {
                return Err(ConfigError::MissingJwtSecret);
            },
        };
        let hours = match &jwt_expiry_hours {
            Some(text) => match parse_i64(text.as_str()) {
                Some(n) => n,
                None => DEFAULT_JWT_EXPIRY_HOURS,
            },
            None => DEFAULT_JWT_EXPIRY_HOURS,
        };
        Ok(
            Config {
                database_url,
                redis_url,
                jwt_secret,
                jwt_expiry_hours: hours,
                server_address: or_default(server_address, DEFAULT_SERVER_ADDRESS),
                robot_api_key: or_default(robot_api_key, DEFAULT_ROBOT_API_KEY),
            },
        )
    }
}

impl Clone for Config {
    fn clone(&self) -> (c: Config)
        ensures
            c == *self,
    {
        Config {
            database_url: self.database_url.clone(),
            redis_url: self.redis_url.clone(),
            jwt_secret: self.jwt_secret.clone(),
            jwt_expiry_hours: self.jwt_expiry_hours,
            server_address: self.server_address.clone(),
            robot_api_key: self.robot_api_key.clone(),
        }
    }
}

} // verus!
