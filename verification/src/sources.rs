//! Decisions of loading from several sources: which environment is meant,
//! which files are read and in what order, and how failures are reported.
//!
//! Sources are layered from lowest to highest priority: the base file, the
//! file of the environment, then the process environment itself.
use vstd::prelude::*;

use crate::common::{default_environment, names_development};
use crate::error::ConfigError;

verus! {

/// The environment that is meant: the `ENVIRONMENT` variable when it is set,
/// else the `ENV` variable, else the default environment.
pub open spec fn spec_resolve_environment(environment: Option<Seq<char>>, env: Option<Seq<char>>) -> Seq<char> {
    match environment {
        Some(e) => e,
        None => match env {
            Some(e) => e,
            None => "development"@,
        },
    }
}

/// The file of an environment: the base path, a dot and the environment.
pub open spec fn spec_environment_file(config_path: Seq<char>, environment: Seq<char>) -> Seq<char> {
    config_path + "."@ + environment
}

/// Picks the environment from the values of `ENVIRONMENT` and `ENV`
/// (`None` where a variable is unset).
pub fn resolve_environment(environment: Option<String>, env: Option<String>) -> (r: String)
    ensures
        r@ == spec_resolve_environment(
            match environment {
                Some(e) => Some(e@),
                None => None,
            },
            match env {
                Some(e) => Some(e@),
                None => None,
            },
        ),
        environment is None && env is None ==> names_development(r@),
        environment matches Some(e) ==> r@ == e@,
        environment is None ==> (env matches Some(e) ==> r@ == e@),
        environment is None && env is None ==> r@ == "development"@,
{
    match environment {
        Some(e) => e,
        None => match env {
            Some(e) => e,
            None => default_environment(),
        },
    }
}

/// `ENVIRONMENT` wins whenever it is set, whatever `ENV` holds; `ENV` is
/// used only when `ENVIRONMENT` is unset; `development` only when both are.
pub proof fn environment_variable_takes_precedence(e: Seq<char>, f: Seq<char>, x: Option<Seq<char>>)
    ensures
        spec_resolve_environment(Some(e), x) == e,
        spec_resolve_environment(None, Some(f)) == f,
        spec_resolve_environment(None, None) == "development"@,
        spec_resolve_environment(Some(e), Some(f)) == e,
{
}

/// The base path that configuration files are looked up under by default.
pub fn default_config_path() -> (r: &'static str)
    ensures
        r@ == "config"@,
{
    "config"
}

/// One source of configuration values.
#[derive(Debug, Clone, PartialEq, Eq)]
pub enum SourceLayer {
    /// A YAML file looked up by its base name; a missing file is skipped
    /// unless `required`.
    File { name: String, required: bool },
    /// The process environment; `separator` splits a variable name into
    /// nested keys, and `try_parsing` reads values as numbers and booleans
    /// where they look like them.
    Environment { separator: String, try_parsing: bool },
}

/// `layer` is the optional YAML file with base name `name`.
pub open spec fn is_optional_file(layer: SourceLayer, name: Seq<char>) -> bool {
    layer matches SourceLayer::File { name: n, required } && n@ == name && !required
}

/// `layer` is the process environment, nested keys split at `__`, values
/// parsed where they can be.
pub open spec fn is_environment_layer(layer: SourceLayer) -> bool {
    layer matches SourceLayer::Environment { separator, try_parsing } && separator@ == "__"@
        && try_parsing
}

/// The sources to combine, lowest priority first, so that each one overrides
/// those before it: the base file, the file of the environment, then the
/// process environment.
pub fn source_layers(config_path: &str, environment: &str) -> (r: Vec<SourceLayer>)
    ensures
        r@.len() == 3,
        is_optional_file(r@[0], config_path@),
        is_optional_file(r@[1], spec_environment_file(config_path@, environment@)),
        is_environment_layer(r@[2]),
{
    let mut env_file = String::from_str(config_path);
    env_file.append(".");
    env_file.append(environment);
    let mut layers: Vec<SourceLayer> = Vec::new();
    layers.push(SourceLayer::File { name: String::from_str(config_path), required: false });
    layers.push(SourceLayer::File { name: env_file, required: false });
    layers.push(SourceLayer::Environment { separator: String::from_str("__"), try_parsing: true });
    layers
}

/// The error for sources that could not be combined; `detail` says why.
pub fn build_error(detail: &str) -> (r: ConfigError)
    ensures
        r matches ConfigError::Parse(m) && m@ == "Failed to build config: "@ + detail@,
{
    let mut message = String::from_str("Failed to build config: ");
    message.append(detail);
    ConfigError::Parse(message)
}

/// The error for combined sources that do not make a configuration;
/// `detail` says why.
pub fn deserialize_error(detail: &str) -> (r: ConfigError)
    ensures
        r matches ConfigError::Parse(m) && m@ == "Failed to deserialize config: "@ + detail@,
{
    let mut message = String::from_str("Failed to deserialize config: ");
    message.append(detail);
    ConfigError::Parse(message)
}

} // verus!
