//! Database settings and the parts of the database URL that services read.
use vstd::prelude::*;

use crate::error::ConfigError;

verus! {

#[verifier::external_type_specification]
#[verifier::external_body]
pub struct ExUrl(url::Url);

#[verifier::external_type_specification]
#[verifier::external_body]
pub struct ExUrlParseError(url::ParseError);

/// Whether `url::Url::parse` accepts the text as an absolute URL.
pub uninterp spec fn url_parses(text: Seq<char>) -> bool;

/// The host that `url::Url::host_str` gives for the URL parsed from the text.
pub uninterp spec fn url_host(text: Seq<char>) -> Option<Seq<char>>;

/// The port that `url::Url::port` gives for the URL parsed from the text.
pub uninterp spec fn url_port(text: Seq<char>) -> Option<u16>;

/// The path that `url::Url::path` gives for the URL parsed from the text.
pub uninterp spec fn url_path(text: Seq<char>) -> Seq<char>;

/// The message of the `url::ParseError` that parsing the text fails with.
pub uninterp spec fn url_error_text(text: Seq<char>) -> Seq<char>;

/// A URL parsed from a text; its view is that text.
pub struct DatabaseUrl {
    url: url::Url,
    text: Ghost<Seq<char>>,
}

impl View for DatabaseUrl {
    type V = Seq<char>;

    closed spec fn view(&self) -> Seq<char> {
        self.text@
    }
}

impl DatabaseUrl {
    /// The parsed URL that this value holds.
    pub closed spec fn url(self) -> url::Url {
        self.url
    }

    /// The parsed URL itself.
    pub fn as_url(&self) -> (r: &url::Url)
        ensures
            *r == self.url(),
    {
        &self.url
    }
}

/// The failure to parse a URL from a text; its view is that text.
pub struct UrlParseFailure {
    error: url::ParseError,
    text: Ghost<Seq<char>>,
}

impl View for UrlParseFailure {
    type V = Seq<char>;

    closed spec fn view(&self) -> Seq<char> {
        self.text@
    }
}

/// Trusted: `url::Url::parse`.  It succeeds exactly when `url_parses` holds of
/// the input; the parsed URL, or the failure, keeps the input as its view.
/// Which texts parse is left to the name.
#[verifier::external_body]
fn parse_url_text(s: &str) -> (r: Result<DatabaseUrl, UrlParseFailure>)
    ensures
        r is Ok <==> url_parses(s@),
        r matches Ok(u) ==> u@ == s@,
        r matches Err(e) ==> e@ == s@,
{
    match url::Url::parse(s) {
        Ok(url) => Ok(DatabaseUrl { url, text: Ghost(s@) }),
        Err(error) => Err(UrlParseFailure { error, text: Ghost(s@) }),
    }
}

/// Trusted: `url::Url::host_str`, named `url_host` of the parsed text.
#[verifier::external_body]
fn url_host_str(u: &DatabaseUrl) -> (r: Option<String>)
    ensures
        r matches Some(h) ==> url_host(u@) == Some(h@),
        r is None ==> url_host(u@) is None,
{
    u.url.host_str().map(|h| h.to_string())
}

/// Trusted: `url::Url::port`, named `url_port` of the parsed text.
#[verifier::external_body]
fn url_port_number(u: &DatabaseUrl) -> (r: Option<u16>)
    ensures
        r == url_port(u@),
{
    u.url.port()
}

/// Trusted: `url::Url::path`, named `url_path` of the parsed text.
#[verifier::external_body]
fn url_path_text(u: &DatabaseUrl) -> (r: String)
    ensures
        r@ == url_path(u@),
{
    u.url.path().to_string()
}

/// Trusted: the `Display` text of `url::ParseError`, named `url_error_text`
/// of the text whose parsing failed.
#[verifier::external_body]
fn url_failure_text(e: &UrlParseFailure) -> (r: String)
    ensures
        r@ == url_error_text(e@),
{
    e.error.to_string()
}

/// The text with every leading `/` removed.
pub open spec fn trim_leading_slashes(s: Seq<char>) -> Seq<char>
    decreases s.len(),
{
    if s.len() > 0 && s[0] == '/' {
        trim_leading_slashes(s.drop_first())
    } else {
        s
    }
}

/// Removing leading slashes leaves a suffix of the text that does not begin
/// with a slash; so a database name never begins with `/`.
pub proof fn trimmed_text_is_slash_free_suffix(s: Seq<char>)
    ensures
        trim_leading_slashes(s).len() <= s.len(),
        trim_leading_slashes(s) =~= s.subrange(s.len() - trim_leading_slashes(s).len(), s.len() as int),
        trim_leading_slashes(s).len() > 0 ==> trim_leading_slashes(s)[0] != '/',
    decreases s.len(),
{
    if s.len() > 0 && s[0] == '/' {
        trimmed_text_is_slash_free_suffix(s.drop_first());
    }
}

/// `e` is an invalid-value error about `DATABASE_URL` with message `m`.
pub open spec fn is_database_url_error(e: ConfigError, m: Seq<char>) -> bool {
    e matches ConfigError::InvalidValue { variable, message } && variable@ == "DATABASE_URL"@
        && message@ == m
}

/// The port of PostgreSQL, used when the URL names none.
pub open spec fn postgres_port() -> u16 {
    5432
}

/// The number of pooled connections when none is configured.
pub fn default_max_connections() -> (r: u32)
    ensures
        r == 10,
{
    10
}

/// The connection timeout, in seconds, when none is configured.
pub fn default_connection_timeout() -> (r: u64)
    ensures
        r == 30,
{
    30
}

/// Connection settings of a PostgreSQL database.
#[derive(Debug, Clone)]
pub struct DatabaseConfig {
    /// PostgreSQL connection URL.
    pub database_url: String,
    /// Maximum number of connections in the pool.
    pub max_connections: u32,
    /// Connection timeout in seconds.
    pub connection_timeout_secs: u64,
}

impl DatabaseConfig {
    /// The error about `DATABASE_URL` with the given message.
    pub fn url_error(message: &str) -> (r: ConfigError)
        ensures
            is_database_url_error(r, message@),
    {
        ConfigError::InvalidValue {
            variable: String::from_str("DATABASE_URL"),
            message: String::from_str(message),
        }
    }

    /// Parses the database URL; a text that is no URL is reported with the
    /// parser's message.
    pub fn parse_url(&self) -> (r: Result<DatabaseUrl, ConfigError>)
        ensures
            r is Ok <==> url_parses(self.database_url@),
            r matches Ok(u) ==> u@ == self.database_url@,
            r matches Err(e) ==> is_database_url_error(e, url_error_text(self.database_url@)),
    {
        match parse_url_text(self.database_url.as_str()) {
            Ok(u) => Ok(u),
            Err(failure) => {
                let text = url_failure_text(&failure);
                Err(Self::url_error(text.as_str()))
            },
        }
    }

    /// The host that a parsed URL reports, or the error for a URL without one.
    pub fn host_of(host: Option<String>) -> (r: Result<String, ConfigError>)
        ensures
            host matches Some(h) ==> r == Ok::<String, ConfigError>(h),
            host is None ==> (r matches Err(e) && is_database_url_error(e, "Missing host"@)),
    {
        match host {
            Some(h) => Ok(h),
            None => Err(Self::url_error("Missing host")),
        }
    }

    /// The port that a parsed URL reports, else the PostgreSQL port.
    pub fn port_or_default(port: Option<u16>) -> (r: u16)
        ensures
            r == match port {
                Some(p) => p,
                None => postgres_port(),
            },
    {
        match port {
            Some(p) => p,
            None => 5432,
        }
    }

    /// The database name in a URL path: the path without its leading
    /// slashes, which must not be empty.
    pub fn database_name_of(path: &str) -> (r: Result<String, ConfigError>)
        ensures
            trim_leading_slashes(path@).len() > 0 ==> (r matches Ok(name) && name@
                == trim_leading_slashes(path@)),
            trim_leading_slashes(path@).len() == 0 ==> (r matches Err(e) && is_database_url_error(
                e,
                "Missing database name"@,
            )),
    {
        let n = path.unicode_len();
        let mut k: usize = 0;
        assert(path@.subrange(0, n as int) =~= path@);
        while k < n && path.get_char(k) == '/'
            invariant
                n == path@.len(),
                k <= n,
                trim_leading_slashes(path@) == trim_leading_slashes(path@.subrange(k as int, n as int)),
            decreases n - k,
        {
            assert(path@.subrange(k as int, n as int).drop_first() =~= path@.subrange(k + 1, n as int));
            k = k + 1;
        }
        let rest = path.substring_char(k, n);
        assert(trim_leading_slashes(rest@) == rest@);
        if k == n {
            Err(Self::url_error("Missing database name"))
        } else {
            Ok(String::from_str(rest))
        }
    }

    /// The host of the database URL.
    pub fn host(&self) -> (r: Result<String, ConfigError>)
        ensures
            !url_parses(self.database_url@) ==> (r matches Err(e) && is_database_url_error(
                e,
                url_error_text(self.database_url@),
            )),
            url_parses(self.database_url@) ==> match url_host(self.database_url@) {
                Some(h) => r matches Ok(s) && s@ == h,
                None => r matches Err(e) && is_database_url_error(e, "Missing host"@),
            },
    {
        let url = self.parse_url()?;
        Self::host_of(url_host_str(&url))
    }

    /// The port of the database URL, 5432 when the URL names none.
    pub fn port(&self) -> (r: Result<u16, ConfigError>)
        ensures
            !url_parses(self.database_url@) ==> (r matches Err(e) && is_database_url_error(
                e,
                url_error_text(self.database_url@),
            )),
            url_parses(self.database_url@) ==> r == Ok::<u16, ConfigError>(
                match url_port(self.database_url@) {
                    Some(p) => p,
                    None => postgres_port(),
                },
            ),
    {
        let url = self.parse_url()?;
        Ok(Self::port_or_default(url_port_number(&url)))
    }

    /// The database name: the URL path without its leading slashes.
    pub fn database_name(&self) -> (r: Result<String, ConfigError>)
        ensures
            !url_parses(self.database_url@) ==> (r matches Err(e) && is_database_url_error(
                e,
                url_error_text(self.database_url@),
            )),
            url_parses(self.database_url@) && trim_leading_slashes(url_path(self.database_url@)).len()
                > 0 ==> (r matches Ok(name) && name@ == trim_leading_slashes(
                url_path(self.database_url@),
            )),
            url_parses(self.database_url@) && trim_leading_slashes(url_path(self.database_url@)).len()
                == 0 ==> (r matches Err(e) && is_database_url_error(e, "Missing database name"@)),
    {
        let url = self.parse_url()?;
        let path = url_path_text(&url);
        Self::database_name_of(path.as_str())
    }
}

} // verus!
