//! The service configuration, built once from explicit values and passed by
//! reference into the parts that need it — no process-wide singleton.

use vstd::prelude::*;

use crate::env;
use crate::env::{duration_millis_of, get_env_duration};

verus! {

/// The settings of the lock service: the deployment flavour, the scheduler
/// tick interval in milliseconds, and the database credentials.
#[derive(Debug)]
pub struct Config {
    pub development: String,
    pub sch_interval: u64,
    pub db_user: String,
    pub db_password: String,
}

/// What building a [`Config`] from raw environment values must yield: the
/// interval variable decides first (absent, then malformed), then the two
/// credentials must be present, and a missing development flag defaults to
/// the empty string.
pub open spec fn config_spec(
    development: Option<Seq<char>>,
    sch_interval: Option<Seq<char>>,
    db_user: Option<Seq<char>>,
    db_password: Option<Seq<char>>,
    r: Result<Config, env::Error>,
) -> bool {
    match sch_interval {
        None => r == Err::<Config, env::Error>(env::Error::MissingEnv),
        Some(iv) => match duration_millis_of(iv) {
            None => r == Err::<Config, env::Error>(env::Error::WrongFormat),
            Some(millis) => match (db_user, db_password) {
                (Some(u), Some(p)) => r matches Ok(c) && c.sch_interval == millis && c.db_user@
                    == u && c.db_password@ == p && c.development@ == (match development {
                    Some(d) => d,
                    None => Seq::<char>::empty(),
                }),
                _ => r == Err::<Config, env::Error>(env::Error::MissingEnv),
            },
        },
    }
}

impl Config {
    /// Builds the configuration from the raw values of its environment
    /// variables, each `None` when the variable was absent.
    pub fn load_from_env(
        development: Option<String>,
        sch_interval: Option<String>,
        db_user: Option<String>,
        db_password: Option<String>,
    ) -> (r: Result<Config, env::Error>)
        ensures
            config_spec(
                development.deep_view(),
                sch_interval.deep_view(),
                db_user.deep_view(),
                db_password.deep_view(),
                r,
            ),
    {
        let interval = match get_env_duration(sch_interval) {
            Ok(iv) => iv,
            Err(e) => {
                return Err(e);
            },
        };
        let db_user = match db_user {
            Some(u) => u,
            None => {
                return Err(env::Error::MissingEnv);
            },
        };
        let db_password = match db_password {
            Some(p) => p,
            None => {
                return Err(env::Error::MissingEnv);
            },
        };
        let development = match development {
            Some(d) => d,
            None => String::new(),
        };
        Ok(Config { development, sch_interval: interval, db_user, db_password })
    }
}

/// Builds the service configuration from raw environment values; see
/// [`Config::load_from_env`].
pub fn config(
    development: Option<String>,
    sch_interval: Option<String>,
    db_user: Option<String>,
    db_password: Option<String>,
) -> (r: Result<Config, env::Error>)
    ensures
        config_spec(
            development.deep_view(),
            sch_interval.deep_view(),
            db_user.deep_view(),
            db_password.deep_view(),
            r,
        ),
{
    Config::load_from_env(development, sch_interval, db_user, db_password)
}

/// The settings shared with the persistence layer: where the database
/// lives, how many connections it may use, and where static web content is
/// served from.
#[derive(Debug)]
pub struct CoreConfig {
    pub db_url: String,
    pub db_max_connection: i32,
    pub web_folder: String,
}

/// What building a [`CoreConfig`] must yield: the connection-count variable
/// decides first (absent, then malformed), then the two remaining variables
/// must be present.
pub open spec fn core_config_spec(
    db_url: Option<Seq<char>>,
    db_max_connection: Option<Seq<char>>,
    web_folder: Option<Seq<char>>,
    r: Result<CoreConfig, env::Error>,
) -> bool {
    match db_max_connection {
        None => r == Err::<CoreConfig, env::Error>(env::Error::MissingEnv),
        Some(mc) => match env::i32_of_str(mc) {
            None => r == Err::<CoreConfig, env::Error>(env::Error::WrongFormat),
            Some(n) => match (db_url, web_folder) {
                (Some(u), Some(w)) => r matches Ok(c) && c.db_max_connection == n && c.db_url@
                    == u && c.web_folder@ == w,
                _ => r == Err::<CoreConfig, env::Error>(env::Error::MissingEnv),
            },
        },
    }
}

impl CoreConfig {
    /// Builds the persistence-layer configuration from the raw values of
    /// its environment variables.
    pub fn load_from_env(
        db_url: Option<String>,
        db_max_connection: Option<String>,
        web_folder: Option<String>,
    ) -> (r: Result<CoreConfig, env::Error>)
        ensures
            core_config_spec(
                db_url.deep_view(),
                db_max_connection.deep_view(),
                web_folder.deep_view(),
                r,
            ),
    {
        let max_connection = match env::get_env_parse(db_max_connection) {
            Ok(n) => n,
            Err(e) => {
                return Err(e);
            },
        };
        let db_url = match db_url {
            Some(u) => u,
            None => {
                return Err(env::Error::MissingEnv);
            },
        };
        let web_folder = match web_folder {
            Some(w) => w,
            None => {
                return Err(env::Error::MissingEnv);
            },
        };
        Ok(CoreConfig { db_url, db_max_connection: max_connection, web_folder })
    }
}

/// Builds the persistence-layer configuration; see
/// [`CoreConfig::load_from_env`].
pub fn core_config(
    db_url: Option<String>,
    db_max_connection: Option<String>,
    web_folder: Option<String>,
) -> (r: Result<CoreConfig, env::Error>)
    ensures
        core_config_spec(
            db_url.deep_view(),
            db_max_connection.deep_view(),
            web_folder.deep_view(),
            r,
        ),
{
    CoreConfig::load_from_env(db_url, db_max_connection, web_folder)
}

} // verus!
