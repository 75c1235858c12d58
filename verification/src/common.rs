//! Settings every service shares, and the deployment environment they name.
use vstd::prelude::*;

use crate::text::str_equals;

verus! {

/// `env` names a production deployment.
pub open spec fn names_production(env: Seq<char>) -> bool {
    env == "production"@ || env == "prod"@
}

/// `env` names a development deployment.
pub open spec fn names_development(env: Seq<char>) -> bool {
    env == "development"@ || env == "dev"@
}

/// `env` names a staging deployment.
pub open spec fn names_staging(env: Seq<char>) -> bool {
    env == "staging"@ || env == "stage"@
}

/// The port a service listens on when none is configured.
pub fn default_port() -> (r: u16)
    ensures
        r == 8080,
{
    8080
}

/// The log level when none is configured.
pub fn default_log_level() -> (r: String)
    ensures
        r@ == "info"@,
{
    String::from_str("info")
}

/// The environment name when none is configured.
pub fn default_environment() -> (r: String)
    ensures
        r@ == "development"@,
        names_development(r@),
{
    String::from_str("development")
}

/// Fields shared by all services.
#[derive(Debug, Clone)]
pub struct CommonConfig {
    /// Service port.
    pub port: u16,
    /// Log level.
    pub log_level: String,
    /// Git SHA of the running build.
    pub git_sha: String,
    /// Deployment environment (dev, staging, production).
    pub environment: String,
}

impl CommonConfig {
    /// Whether the service runs in production (`production` or `prod`).
    pub fn is_production(&self) -> (r: bool)
        ensures
            r == names_production(self.environment@),
            r <==> (self.environment@ == "production"@ || self.environment@ == "prod"@),
    {
        let env = self.environment.as_str();
        str_equals(env, "production") || str_equals(env, "prod")
    }

    /// Whether the service runs in development (`development` or `dev`).
    pub fn is_development(&self) -> (r: bool)
        ensures
            r == names_development(self.environment@),
            r <==> (self.environment@ == "development"@ || self.environment@ == "dev"@),
    {
        let env = self.environment.as_str();
        str_equals(env, "development") || str_equals(env, "dev")
    }

    /// Whether the service runs in staging (`staging` or `stage`).
    pub fn is_staging(&self) -> (r: bool)
        ensures
            r == names_staging(self.environment@),
            r <==> (self.environment@ == "staging"@ || self.environment@ == "stage"@),
    {
        let env = self.environment.as_str();
        str_equals(env, "staging") || str_equals(env, "stage")
    }
}

/// No environment name is taken for two deployments: at most one of
/// production, development and staging holds of any name.
pub proof fn deployments_are_exclusive(env: Seq<char>)
    ensures
        !(names_production(env) && names_development(env)),
        !(names_production(env) && names_staging(env)),
        !(names_development(env) && names_staging(env)),
{
    reveal_strlit("production");
    reveal_strlit("prod");
    reveal_strlit("development");
    reveal_strlit("dev");
    reveal_strlit("staging");
    reveal_strlit("stage");
    // The names of different deployments already differ in their first letter.
    assert("production"@[0] == 'p' && "prod"@[0] == 'p');
    assert("development"@[0] == 'd' && "dev"@[0] == 'd');
    assert("staging"@[0] == 's' && "stage"@[0] == 's');
}

/// Each deployment is recognised by exactly its two names and by no other
/// text: a name outside those six (such as `test` or `qa`) is no deployment.
pub proof fn deployments_have_exactly_two_names(env: Seq<char>)
    ensures
        names_production(env) <==> (env == "production"@ || env == "prod"@),
        names_development(env) <==> (env == "development"@ || env == "dev"@),
        names_staging(env) <==> (env == "staging"@ || env == "stage"@),
        !(env == "production"@ || env == "prod"@ || env == "development"@ || env == "dev"@
            || env == "staging"@ || env == "stage"@) ==> !names_production(env) && !names_development(env)
            && !names_staging(env),
{
}

} // verus!
