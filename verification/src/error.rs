use vstd::prelude::*;

verus! {

/// What can go wrong while loading or checking a configuration.
#[derive(Debug, Clone, PartialEq, Eq)]
pub enum ConfigError {
    /// A required environment variable is missing.
    MissingEnv(String),
    /// A variable holds a value that is not acceptable.
    InvalidValue { variable: String, message: String },
    /// A loaded configuration failed validation.
    Validation(String),
    /// The configuration could not be parsed.
    Parse(String),
    /// A configuration file could not be loaded.
    FileLoad(String),
    /// A secret could not be decrypted.
    SecretDecryption(String),
}

} // verus!
