//! The settings of a session store.

use vstd::prelude::*;

verus! {

/// The settings of a session store.
#[derive(Debug)]
pub struct SessionConfig {
    /// The name of the cookie that carries the session identifier.
    pub cookie_name: String,
    /// The table of the backing store that holds the sessions.
    pub table_name: String,
    /// The lifespan of a session, in seconds.
    pub default_lifespan: u32,
    /// The lifespan of a long-term session, in seconds.
    pub longterm_lifespan: u32,
    /// The seconds between two sweeps.
    pub sweep_interval: u32,
    /// How many identifiers are drawn before generation gives up.
    pub max_attempts: u32,
    /// Whether a backing store is used where one is given.
    pub persistence_enabled: bool,
}

/// The lifespan of a session unless the settings say otherwise: six hours.
pub const DEFAULT_LIFESPAN: u32 = 21_600;

/// The lifespan of a long-term session unless the settings say otherwise:
/// sixty days.
pub const DEFAULT_LONGTERM_LIFESPAN: u32 = 5_184_000;

/// The seconds between two sweeps unless the settings say otherwise: one
/// hour.
pub const DEFAULT_SWEEP_INTERVAL: u32 = 3_600;

/// The number of identifiers that are drawn before generation gives up,
/// unless the settings say otherwise.
pub const DEFAULT_MAX_ATTEMPTS: u32 = 16;

impl Default for SessionConfig {
    /// The settings that apply where nothing is chosen: the cookie `session`,
    /// the table `sessions`, the lifespans, sweep interval and number of
    /// attempts of the constants above, and a backing store in use where one
    /// is given.
    fn default() -> (config: SessionConfig)
        ensures
            config.cookie_name@ == "session"@,
            config.table_name@ == "sessions"@,
            config.default_lifespan == DEFAULT_LIFESPAN,
            config.longterm_lifespan == DEFAULT_LONGTERM_LIFESPAN,
            config.sweep_interval == DEFAULT_SWEEP_INTERVAL,
            config.max_attempts == DEFAULT_MAX_ATTEMPTS,
            config.persistence_enabled,
    {
        SessionConfig {
            cookie_name: "session".to_owned(),
            table_name: "sessions".to_owned(),
            default_lifespan: DEFAULT_LIFESPAN,
            longterm_lifespan: DEFAULT_LONGTERM_LIFESPAN,
            sweep_interval: DEFAULT_SWEEP_INTERVAL,
            max_attempts: DEFAULT_MAX_ATTEMPTS,
            persistence_enabled: true,
        }
    }
}

impl SessionConfig {
    /// The settings with the cookie name `name`.
    pub fn with_cookie_name(self, name: &str) -> (config: SessionConfig)
        ensures
            config == (SessionConfig { cookie_name: config.cookie_name, ..self }),
            config.cookie_name@ == name@,
    {
        SessionConfig { cookie_name: name.to_owned(), ..self }
    }

    /// The settings with the table name `name`.
    pub fn with_table_name(self, name: &str) -> (config: SessionConfig)
        ensures
            config == (SessionConfig { table_name: config.table_name, ..self }),
            config.table_name@ == name@,
    {
        SessionConfig { table_name: name.to_owned(), ..self }
    }

    /// The settings with a lifespan of `seconds`.
    pub fn with_lifespan(self, seconds: u32) -> (config: SessionConfig)
        ensures
            config == (SessionConfig { default_lifespan: seconds, ..self }),
    {
        SessionConfig { default_lifespan: seconds, ..self }
    }

    /// The settings with a long-term lifespan of `seconds`.
    pub fn with_longterm_lifespan(self, seconds: u32) -> (config: SessionConfig)
        ensures
            config == (SessionConfig { longterm_lifespan: seconds, ..self }),
    {
        SessionConfig { longterm_lifespan: seconds, ..self }
    }

    /// The settings with `seconds` between two sweeps.
    pub fn with_sweep_interval(self, seconds: u32) -> (config: SessionConfig)
        ensures
            config == (SessionConfig { sweep_interval: seconds, ..self }),
    {
        SessionConfig { sweep_interval: seconds, ..self }
    }

    /// The settings with at most `attempts` draws of an identifier.
    pub fn with_max_attempts(self, attempts: u32) -> (config: SessionConfig)
        ensures
            config == (SessionConfig { max_attempts: attempts, ..self }),
    {
        SessionConfig { max_attempts: attempts, ..self }
    }

    /// The settings with the backing store in use (`true`) or not (`false`).
    pub fn with_persistence(self, enabled: bool) -> (config: SessionConfig)
        ensures
            config == (SessionConfig { persistence_enabled: enabled, ..self }),
    {
        SessionConfig { persistence_enabled: enabled, ..self }
    }
}

} // verus!
