//! Error types for configuration loading and validation.

use vstd::prelude::*;

verus! {

/// Errors that can occur while loading or validating a configuration.
///
/// The underlying I/O and TOML errors are carried as their message text.
#[derive(Debug, Clone, PartialEq, Eq)]
pub enum ConfigError {
    /// The config file could not be read from disk.
    Read {
        /// Path that was attempted.
        path: String,
        /// Text of the underlying I/O error.
        message: String,
    },
    /// The file contents are not valid TOML.
    Parse {
        /// Path that was parsed.
        path: String,
        /// Text of the underlying TOML parse error.
        message: String,
    },
    /// A config value failed semantic validation (e.g. unknown event name).
    Validation(String),
}

/// The human-readable description of a configuration error.
pub open spec fn config_error_text(e: ConfigError) -> Seq<char> {
    match e {
        ConfigError::Read { path, message } => "failed to read config file "@ + path@ + ": "@
            + message@,
        ConfigError::Parse { path, message } => "failed to parse config file "@ + path@ + ": "@
            + message@,
        ConfigError::Validation(m) => "invalid config: "@ + m@,
    }
}

impl ConfigError {
    /// The error's description, as an operator would read it.
    pub fn to_string(&self) -> (r: String)
        ensures
            r@ == config_error_text(*self),
    {
        match self {
            ConfigError::Read { path, message } => {
                let mut s = String::from_str("failed to read config file ");
                s.append(path.as_str());
                s.append(": ");
                s.append(message.as_str());
                s
            },
            ConfigError::Parse { path, message } => {
                let mut s = String::from_str("failed to parse config file ");
                s.append(path.as_str());
                s.append(": ");
                s.append(message.as_str());
                s
            },
            ConfigError::Validation(m) => {
                let mut s = String::from_str("invalid config: ");
                s.append(m.as_str());
                s
            },
        }
    }
}

/// Top-level error enum for core operations.
#[derive(Debug, Clone, PartialEq, Eq)]
pub enum CoreError {
    /// Configuration-related failure.
    Config(ConfigError),
}

impl From<ConfigError> for CoreError {
    fn from(e: ConfigError) -> (r: CoreError)
        ensures
            r == CoreError::Config(e),
    {
        CoreError::Config(e)
    }
}

impl vstd::std_specs::convert::FromSpecImpl<ConfigError> for CoreError {
    open spec fn obeys_from_spec() -> bool {
        true
    }

    open spec fn from_spec(e: ConfigError) -> CoreError {
        CoreError::Config(e)
    }
}

} // verus!
