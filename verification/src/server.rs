//! Server settings and the run mode a service executes in.
use vstd::prelude::*;

use crate::error::ConfigError;
use crate::text::{
    all_ascii, ascii_lower, decimal, str_equals, to_lowercase, u16_to_decimal, unicode_lowercase,
};

verus! {

/// How a service executes.
#[derive(Debug, Clone, Copy, PartialEq, Eq, Structural)]
pub enum RunMode {
    /// Serve HTTP/GraphQL requests.
    Api,
    /// Run database migrations and exit.
    Migrate,
    /// Process background jobs.
    Worker,
    /// Promote schema changes for zero-downtime deployments.
    Promote,
}

impl RunMode {
    /// The lowercase name of a mode, as it is written and read.
    pub open spec fn name(self) -> Seq<char> {
        match self {
            RunMode::Api => "api"@,
            RunMode::Migrate => "migrate"@,
            RunMode::Worker => "worker"@,
            RunMode::Promote => "promote"@,
        }
    }

    /// The mode whose name is exactly `lower`, if any.
    pub open spec fn named(lower: Seq<char>) -> Option<RunMode> {
        if lower == "api"@ {
            Some(RunMode::Api)
        } else if lower == "migrate"@ {
            Some(RunMode::Migrate)
        } else if lower == "worker"@ {
            Some(RunMode::Worker)
        } else if lower == "promote"@ {
            Some(RunMode::Promote)
        } else {
            None
        }
    }

    /// The message of the error for an input that names no mode.
    pub open spec fn invalid_message(input: Seq<char>) -> Seq<char> {
        "Invalid run mode '"@ + input + "'. Valid values: api, migrate, worker, promote"@
    }

    /// `e` is the error that an input naming no mode is answered with.
    pub open spec fn is_invalid_error(e: ConfigError, input: Seq<char>) -> bool {
        e matches ConfigError::InvalidValue { variable, message }
            && variable@ == "RUN_MODE"@
            && message@ == Self::invalid_message(input)
    }

    /// `r` is the answer to reading `input`, whose lowercase form is `lower`:
    /// the mode that `lower` names, or the error for `input` when it names none.
    pub open spec fn answers_reading(r: Result<RunMode, ConfigError>, lower: Seq<char>, input: Seq<char>) -> bool {
        match r {
            Ok(m) => Self::named(lower) == Some(m),
            Err(e) => Self::named(lower) is None && Self::is_invalid_error(e, input),
        }
    }

    /// The lowercase name of this mode.
    pub fn to_string(&self) -> (r: String)
        ensures
            r@ == self.name(),
    {
        match self {
            RunMode::Api => String::from_str("api"),
            RunMode::Migrate => String::from_str("migrate"),
            RunMode::Worker => String::from_str("worker"),
            RunMode::Promote => String::from_str("promote"),
        }
    }

    /// Picks the mode from the lowercase form `lower` of the text `input`;
    /// `input` only goes into the error message.
    pub fn from_lowercase_name(lower: &str, input: &str) -> (r: Result<RunMode, ConfigError>)
        ensures
            Self::answers_reading(r, lower@, input@),
    {
        if str_equals(lower, "api") {
            Ok(RunMode::Api)
        } else if str_equals(lower, "migrate") {
            Ok(RunMode::Migrate)
        } else if str_equals(lower, "worker") {
            Ok(RunMode::Worker)
        } else if str_equals(lower, "promote") {
            Ok(RunMode::Promote)
        } else {
            let mut message = String::from_str("Invalid run mode '");
            message.append(input);
            message.append("'. Valid values: api, migrate, worker, promote");
            Err(ConfigError::InvalidValue { variable: String::from_str("RUN_MODE"), message })
        }
    }

    /// Reads a run mode, ignoring case: the Unicode lowercase form of `s`
    /// must be one of `api`, `migrate`, `worker`, `promote`.
    pub fn parse(s: &str) -> (r: Result<RunMode, ConfigError>)
        ensures
            Self::answers_reading(r, unicode_lowercase(s@), s@),
            all_ascii(s@) ==> Self::answers_reading(r, ascii_lower(s@), s@),
    {
        let lower = to_lowercase(s);
        Self::from_lowercase_name(lower.as_str(), s)
    }
}

/// Names and modes correspond one to one: a text names mode `m` exactly when
/// it is the name of `m`.
pub proof fn names_identify_modes(x: Seq<char>, m: RunMode)
    ensures
        RunMode::named(x) == Some(m) <==> x == m.name(),
{
    reveal_strlit("api");
    reveal_strlit("migrate");
    reveal_strlit("worker");
    reveal_strlit("promote");
    assert("api"@.len() == 3 && "migrate"@.len() == 7 && "worker"@.len() == 6);
    assert("promote"@.len() == 7 && "migrate"@[0] != "promote"@[0]);
}

/// Reading back the name that `to_string` writes gives the same mode:
/// the name is ASCII and already lowercase, and every result that `parse`
/// may give on it is `Ok(m)`.
pub proof fn name_reads_back(m: RunMode, r: Result<RunMode, ConfigError>)
    ensures
        all_ascii(m.name()),
        ascii_lower(m.name()) == m.name(),
        RunMode::answers_reading(r, ascii_lower(m.name()), m.name()) <==> r == Ok::<RunMode, ConfigError>(m),
{
    reveal_strlit("api");
    reveal_strlit("migrate");
    reveal_strlit("worker");
    reveal_strlit("promote");
    assert(ascii_lower(m.name()) =~= m.name());
    names_identify_modes(m.name(), m);
}

/// Case does not matter for ASCII input: any result that `parse` may give
/// on an ASCII text `s` is `Ok(m)` exactly when `s` is the name of `m` up to
/// ASCII case.
pub proof fn parse_ignores_ascii_case(s: Seq<char>, m: RunMode, r: Result<RunMode, ConfigError>)
    requires
        all_ascii(s),
        RunMode::answers_reading(r, ascii_lower(s), s),
    ensures
        r == Ok::<RunMode, ConfigError>(m) <==> ascii_lower(s) == m.name(),
{
    names_identify_modes(ascii_lower(s), m);
}

impl Default for RunMode {
    fn default() -> (r: RunMode)
        ensures
            r == RunMode::Api,
    {
        RunMode::Api
    }
}

impl std::str::FromStr for RunMode {
    type Err = ConfigError;

    fn from_str(s: &str) -> (r: Result<RunMode, ConfigError>)
        ensures
            RunMode::answers_reading(r, unicode_lowercase(s@), s@),
            all_ascii(s@) ==> RunMode::answers_reading(r, ascii_lower(s@), s@),
    {
        RunMode::parse(s)
    }
}

/// The host a server binds to when none is configured.
pub fn default_host() -> (r: String)
    ensures
        r@ == "0.0.0.0"@,
{
    String::from_str("0.0.0.0")
}

/// Network binding and run mode of a server.
#[derive(Debug, Clone)]
pub struct ServerConfig {
    /// Host to bind to.
    pub host: String,
    /// Port to bind to.
    pub port: u16,
    /// How the service executes.
    pub run_mode: RunMode,
}

impl ServerConfig {
    /// The text `host:port` that a socket address is read from.
    pub open spec fn address_text(self) -> Seq<char> {
        self.host@ + ":"@ + decimal(self.port as nat)
    }

    /// The address text to bind to: the host, a colon and the port in decimal.
    pub fn address_string(&self) -> (r: String)
        ensures
            r@ == self.address_text(),
    {
        let mut r = self.host.clone();
        r.append(":");
        r.append(u16_to_decimal(self.port).as_str());
        r
    }

    /// The error for an address text that is no socket address; `detail`
    /// says why it is not.
    pub fn socket_addr_error(detail: &str) -> (r: ConfigError)
        ensures
            r matches ConfigError::InvalidValue { variable, message }
                && variable@ == "HOST/PORT"@
                && message@ == "Failed to parse socket address: "@ + detail@,
    {
        let mut message = String::from_str("Failed to parse socket address: ");
        message.append(detail);
        ConfigError::InvalidValue { variable: String::from_str("HOST/PORT"), message }
    }

    /// Whether the server runs in API mode.
    pub fn is_api_mode(&self) -> (r: bool)
        ensures
            r == (self.run_mode == RunMode::Api),
    {
        self.run_mode == RunMode::Api
    }

    /// Whether the server runs migrations.
    pub fn is_migrate_mode(&self) -> (r: bool)
        ensures
            r == (self.run_mode == RunMode::Migrate),
    {
        self.run_mode == RunMode::Migrate
    }

    /// Whether the server processes background jobs.
    pub fn is_worker_mode(&self) -> (r: bool)
        ensures
            r == (self.run_mode == RunMode::Worker),
    {
        self.run_mode == RunMode::Worker
    }

    /// Whether the server promotes schema changes.
    pub fn is_promote_mode(&self) -> (r: bool)
        ensures
            r == (self.run_mode == RunMode::Promote),
    {
        self.run_mode == RunMode::Promote
    }
}

/// A server is in exactly one of the four modes.
pub proof fn exactly_one_mode(c: ServerConfig)
    ensures
        (c.run_mode == RunMode::Api) || (c.run_mode == RunMode::Migrate)
            || (c.run_mode == RunMode::Worker) || (c.run_mode == RunMode::Promote),
        (c.run_mode == RunMode::Api) ==> c.run_mode != RunMode::Migrate && c.run_mode != RunMode::Worker
            && c.run_mode != RunMode::Promote,
        (c.run_mode == RunMode::Migrate) ==> c.run_mode != RunMode::Worker && c.run_mode != RunMode::Promote,
        (c.run_mode == RunMode::Worker) ==> c.run_mode != RunMode::Promote,
{
}

} // verus!
