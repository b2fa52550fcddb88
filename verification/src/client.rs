//! Client configuration and the decisions a client builder makes: which base URL it
//! talks to, whether it warns of missing authentication, and whether a custom header
//! is acceptable.

use vstd::prelude::*;
use core::time::Duration;
use reqwest::header::{HeaderMap, HeaderName, HeaderValue};
use url::Url;
use crate::auth::{
    AuthConfig, header_entries, header_insert, header_map_new, header_name_text, header_names_len,
    header_room, header_value_from_str, header_value_text, no_headers, valid_header_value,
};
use crate::environment::{environment_url, LettaEnvironment};
use crate::error::{LettaError, LettaErrorView};
use crate::retry::{duration_from_secs, spec_duration_from_secs};

verus! {

#[verifier::external_type_specification]
#[verifier::external_body]
pub struct ExUrl(Url);

/// The serialization of a URL (what `Url::as_str` gives).
pub uninterp spec fn url_text(u: Url) -> Seq<char>;

/// What `Url::parse` gives for a text: the parsed URL's serialization, or the text of
/// the parse error.
pub uninterp spec fn spec_url_parse(text: Seq<char>) -> Result<Seq<char>, Seq<char>>;

/// `Url`'s `clone` (derived): the copy has the same serialization.
pub assume_specification[<url::Url as core::clone::Clone>::clone](u: &url::Url) -> (r: url::Url)
    ensures
        url_text(r) == url_text(*u),
;

/// `Url::parse`, with a refusal turned into the text of its error.
#[verifier::external_body]
fn url_parse(text: &str) -> (r: Result<Url, String>)
    ensures
        match r {
            Ok(u) => spec_url_parse(text@) matches Ok(t) && t == url_text(u),
            Err(m) => spec_url_parse(text@) matches Err(t) && t == m@,
        },
{
    match Url::parse(text) {
        Ok(u) => Ok(u),
        Err(e) => Err(e.to_string()),
    }
}

/// The environment of a client whose builder may have none: Letta Cloud by default.
pub open spec fn environment_or_default(e: Option<LettaEnvironment>) -> LettaEnvironment {
    match e {
        Some(x) => x,
        None => LettaEnvironment::Cloud,
    }
}

/// The base URL a client talks to: the one set explicitly, else its environment's.
pub fn client_base_url(environment: Option<LettaEnvironment>, base_url: Option<String>) -> (r: String)
    ensures
        match base_url {
            Some(u) => r@ == u@,
            None => r@ == environment_url(environment_or_default(environment)),
        },
{
    match base_url {
        Some(u) => u,
        None => {
            let env = match environment {
                Some(x) => x,
                None => LettaEnvironment::default(),
            };
            String::from_str(env.base_url())
        },
    }
}

/// Whether building a client warns that authentication is missing: none was set,
/// no base URL was set explicitly, and the environment needs authentication.
pub fn warns_missing_auth(environment: Option<LettaEnvironment>, has_base_url: bool, has_auth: bool) -> (r: bool)
    ensures
        r == (!has_auth && !has_base_url && environment_or_default(environment) == LettaEnvironment::Cloud),
{
    let env = match environment {
        Some(x) => x,
        None => LettaEnvironment::default(),
    };
    !has_auth && env.requires_auth() && !has_base_url
}

/// Characters a header name may hold (HTTP token characters).
pub open spec fn header_name_char(c: char) -> bool {
    ('a' <= c && c <= 'z') || ('A' <= c && c <= 'Z') || ('0' <= c && c <= '9') || c == '!' || c == '#'
        || c == '$' || c == '%' || c == '&' || c == '\'' || c == '*' || c == '+' || c == '-' || c == '.'
        || c == '^' || c == '_' || c == '`' || c == '|' || c == '~'
}

/// A header name is one to 65535 token characters.
pub open spec fn valid_header_name(s: Seq<char>) -> bool {
    1 <= s.len() <= 65535 && forall|i: int| 0 <= i < s.len() ==> header_name_char(#[trigger] s[i])
}

/// A text with its ASCII upper-case letters in lower case.
pub open spec fn ascii_lower(s: Seq<char>) -> Seq<char> {
    s.map_values(|c: char| if 'A' <= c && c <= 'Z' { ((c as u32) + 32) as char } else { c })
}

/// `HeaderName::from_bytes` on the text's bytes: accepts exactly the names of one to
/// 65535 bytes that are all token characters, and keeps them in lower case.
#[verifier::external_body]
fn header_name_from_str(s: &str) -> (r: Option<HeaderName>)
    ensures
        r is Some <==> valid_header_name(s@),
        r matches Some(n) ==> header_name_text(n) == ascii_lower(s@),
{
    HeaderName::from_bytes(s.as_bytes()).ok()
}

/// The message of a refused header: its name, or its value.
pub open spec fn header_problem(key: Seq<char>, value: Seq<char>) -> Option<Seq<char>> {
    if !valid_header_name(key) {
        Some("Invalid header name: "@ + key)
    } else if !valid_header_value(value) {
        Some("Invalid header value for "@ + key + ": "@ + value)
    } else {
        None
    }
}

/// Checks a custom header to send with every request and makes its name and value;
/// a refused one is a validation error naming what is wrong.
pub fn check_header(key: &str, value: &str) -> (r: Result<(HeaderName, HeaderValue), LettaError>)
    ensures
        match header_problem(key@, value@) {
            Some(m) => r matches Err(e) && e@ == (LettaErrorView::Validation { message: m, field: None }),
            None => r matches Ok((n, v)) && header_name_text(n) == ascii_lower(key@)
                && header_value_text(v) == value@,
        },
{
    let name = match header_name_from_str(key) {
        Some(n) => n,
        None => {
            let mut m = String::from_str("Invalid header name: ");
            m.append(key);
            return Err(LettaError::validation(m.as_str()));
        },
    };
    let v = match header_value_from_str(value) {
        Some(v) => v,
        None => {
            let mut m = String::from_str("Invalid header value for ");
            m.append(key);
            m.append(": ");
            m.append(value);
            return Err(LettaError::validation(m.as_str()));
        },
    };
    Ok((name, v))
}

/// Configuration for the Letta client.
#[derive(Debug, Clone)]
pub struct ClientConfig {
    /// Base URL for the Letta API.
    pub base_url: Url,
    /// Authentication configuration.
    pub auth: AuthConfig,
    /// Request timeout duration.
    pub timeout: Duration,
    /// Additional headers to include with all requests.
    pub headers: HeaderMap,
}

/// What adding a header does to a configuration: the header's name (in lower case)
/// with the value alone, the rest unchanged; or the validation error naming what is
/// wrong with it.
pub open spec fn header_added(
    before: ClientConfig,
    key: Seq<char>,
    value: Seq<char>,
    r: Result<ClientConfig, LettaError>,
) -> bool {
    match header_problem(key, value) {
        Some(m) => r matches Err(e) && e@ == (LettaErrorView::Validation { message: m, field: None }),
        None => r matches Ok(c) && c.base_url == before.base_url && c.auth == before.auth
            && c.timeout == before.timeout
            && header_entries(c.headers) == header_entries(before.headers).insert(
                ascii_lower(key),
                seq![value],
            ),
    }
}

impl ClientConfig {
    /// Create a new client configuration: the base URL parsed, no authentication, a
    /// 30 second timeout and no extra headers; a URL that does not parse is a URL error.
    pub fn new(base_url: &str) -> (r: Result<Self, LettaError>)
        ensures
            match spec_url_parse(base_url@) {
                Ok(t) => r matches Ok(c) && url_text(c.base_url) == t && c.auth is Unauthenticated
                    && c.timeout == spec_duration_from_secs(30) && header_entries(c.headers) == no_headers(),
                Err(m) => r matches Err(e) && e@ == (LettaErrorView::Url { message: m }),
            },
    {
        match url_parse(base_url) {
            Ok(u) => Ok(ClientConfig {
                base_url: u,
                auth: AuthConfig::default(),
                timeout: duration_from_secs(30),
                headers: header_map_new(),
            }),
            Err(m) => Err(LettaError::Url { message: m }),
        }
    }

    /// Set the authentication configuration.
    pub fn auth(self, auth: AuthConfig) -> (r: Self)
        ensures
            r == (ClientConfig { auth, ..self }),
    {
        ClientConfig { auth, ..self }
    }

    /// Set the request timeout.
    pub fn timeout(self, timeout: Duration) -> (r: Self)
        ensures
            r == (ClientConfig { timeout, ..self }),
    {
        ClientConfig { timeout, ..self }
    }

    /// Set additional headers to include with all requests.
    pub fn headers(self, headers: HeaderMap) -> (r: Self)
        ensures
            r == (ClientConfig { headers, ..self }),
    {
        ClientConfig { headers, ..self }
    }

    /// The number of distinct header names the configuration sends.
    pub fn header_count(&self) -> (r: usize)
        ensures
            r == header_entries(self.headers).dom().len(),
    {
        header_names_len(&self.headers)
    }

    /// Add a single header to include with all requests, replacing any value it had;
    /// a refused name or value is a validation error. The headers must have room for
    /// one more name (see [`header_room`]).
    pub fn header(self, key: &str, value: &str) -> (r: Result<Self, LettaError>)
        requires
            header_room(self.headers),
        ensures
            header_added(self, key@, value@, r),
    {
        let (name, v) = match check_header(key, value) {
            Ok(p) => p,
            Err(e) => return Err(e),
        };
        let mut headers = self.headers;
        header_insert(&mut headers, name, v);
        Ok(ClientConfig { headers, ..self })
    }

    /// Set the `X-Project` header for all requests, associating them with a project.
    pub fn project(self, project_id: &str) -> (r: Result<Self, LettaError>)
        requires
            header_room(self.headers),
        ensures
            header_added(self, "X-Project"@, project_id@, r),
    {
        self.header("X-Project", project_id)
    }

    /// Set the `user-id` header for all requests, identifying the user.
    pub fn user_id(self, user_id: &str) -> (r: Result<Self, LettaError>)
        requires
            header_room(self.headers),
        ensures
            header_added(self, "user-id"@, user_id@, r),
    {
        self.header("user-id", user_id)
    }
}

/// The headers a builder holds: none until one is set or added.
pub open spec fn builder_headers(h: Option<HeaderMap>) -> Map<Seq<char>, Seq<Seq<char>>> {
    match h {
        Some(m) => header_entries(m),
        None => no_headers(),
    }
}

/// The base URL a builder's client talks to, as text.
pub open spec fn builder_base_url(environment: Option<LettaEnvironment>, base_url: Option<Seq<char>>) -> Seq<char> {
    match base_url {
        Some(u) => u,
        None => environment_url(environment_or_default(environment)),
    }
}

/// Builder for creating a Letta client.
#[derive(Debug)]
pub struct ClientBuilder {
    environment: Option<LettaEnvironment>,
    base_url: Option<String>,
    auth: Option<AuthConfig>,
    timeout: Option<Duration>,
    headers: Option<HeaderMap>,
}

impl Default for ClientBuilder {
    fn default() -> (r: Self)
        ensures
            r.spec_environment() is None && r.spec_base_url() is None && r.spec_auth() is None
                && r.spec_timeout() is None && r.spec_header_map() is None,
    {
        ClientBuilder { environment: None, base_url: None, auth: None, timeout: None, headers: None }
    }
}

impl ClientBuilder {
    /// The environment set, if any.
    pub closed spec fn spec_environment(self) -> Option<LettaEnvironment> {
        self.environment
    }

    /// The base URL set, if any.
    pub closed spec fn spec_base_url(self) -> Option<Seq<char>> {
        match self.base_url {
            Some(u) => Some(u@),
            None => None,
        }
    }

    /// The authentication set, if any.
    pub closed spec fn spec_auth(self) -> Option<AuthConfig> {
        self.auth
    }

    /// The timeout set, if any.
    pub closed spec fn spec_timeout(self) -> Option<Duration> {
        self.timeout
    }

    /// The header map set or added to, if any.
    pub closed spec fn spec_header_map(self) -> Option<HeaderMap> {
        self.headers
    }

    /// Whether headers were set or added.
    pub open spec fn has_headers(self) -> bool {
        self.spec_header_map() is Some
    }

    /// The headers set or added (none if there are none).
    pub open spec fn spec_headers(self) -> Map<Seq<char>, Seq<Seq<char>>> {
        builder_headers(self.spec_header_map())
    }

    /// The headers can take one more name (see [`header_room`]).
    pub open spec fn has_header_room(self) -> bool {
        self.spec_header_map() matches Some(h) ==> header_room(h)
    }

    /// The text of the base URL the client will talk to.
    pub open spec fn target_url(self) -> Seq<char> {
        builder_base_url(self.spec_environment(), self.spec_base_url())
    }

    /// The settings other than the environment are those of `other`.
    pub open spec fn same_but_environment(self, other: Self) -> bool {
        &&& self.spec_base_url() == other.spec_base_url()
        &&& self.spec_auth() == other.spec_auth()
        &&& self.spec_timeout() == other.spec_timeout()
        &&& self.spec_header_map() == other.spec_header_map()
    }

    /// Create a new client builder with nothing set.
    pub fn new() -> (r: Self)
        ensures
            r.spec_environment() is None && r.spec_base_url() is None && r.spec_auth() is None
                && r.spec_timeout() is None && !r.has_headers() && r.spec_headers() == no_headers(),
    {
        ClientBuilder { environment: None, base_url: None, auth: None, timeout: None, headers: None }
    }

    /// Set the environment (Cloud or SelfHosted).
    pub fn environment(self, env: LettaEnvironment) -> (r: Self)
        ensures
            r.spec_environment() == Some(env) && r.same_but_environment(self),
    {
        ClientBuilder { environment: Some(env), ..self }
    }

    /// Set the base URL (overrides the environment's).
    pub fn base_url(self, url: &str) -> (r: Self)
        ensures
            r.spec_base_url() == Some(url@),
            r.spec_environment() == self.spec_environment() && r.spec_auth() == self.spec_auth()
                && r.spec_timeout() == self.spec_timeout() && r.spec_header_map() == self.spec_header_map(),
    {
        ClientBuilder { base_url: Some(url.to_string()), ..self }
    }

    /// Set the authentication.
    pub fn auth(self, auth: AuthConfig) -> (r: Self)
        ensures
            r.spec_auth() == Some(auth) && r.spec_environment() == self.spec_environment()
                && r.spec_base_url() == self.spec_base_url() && r.spec_timeout() == self.spec_timeout()
                && r.spec_header_map() == self.spec_header_map(),
    {
        ClientBuilder { auth: Some(auth), ..self }
    }

    /// Set the timeout.
    pub fn timeout(self, timeout: Duration) -> (r: Self)
        ensures
            r.spec_timeout() == Some(timeout) && r.spec_environment() == self.spec_environment()
                && r.spec_base_url() == self.spec_base_url() && r.spec_auth() == self.spec_auth()
                && r.spec_header_map() == self.spec_header_map(),
    {
        ClientBuilder { timeout: Some(timeout), ..self }
    }

    /// Set the custom headers, replacing any set or added before.
    pub fn headers(self, headers: HeaderMap) -> (r: Self)
        ensures
            r.spec_header_map() == Some(headers) && r.spec_environment() == self.spec_environment()
                && r.spec_base_url() == self.spec_base_url() && r.spec_auth() == self.spec_auth()
                && r.spec_timeout() == self.spec_timeout(),
    {
        ClientBuilder { headers: Some(headers), ..self }
    }

    /// The number of distinct header names set or added so far.
    pub fn header_count(&self) -> (r: usize)
        ensures
            r == self.spec_headers().dom().len(),
    {
        match &self.headers {
            Some(h) => header_names_len(h),
            None => 0,
        }
    }

    /// Add a single header to include with all requests, replacing any value it had;
    /// a refused name or value is a validation error. The headers must have room for
    /// one more name.
    pub fn header(self, key: &str, value: &str) -> (r: Result<Self, LettaError>)
        requires
            self.has_header_room(),
        ensures
            match header_problem(key@, value@) {
                Some(m) => r matches Err(e) && e@ == (LettaErrorView::Validation { message: m, field: None }),
                None => r matches Ok(b) && b.spec_environment() == self.spec_environment()
                    && b.spec_base_url() == self.spec_base_url() && b.spec_auth() == self.spec_auth()
                    && b.spec_timeout() == self.spec_timeout() && b.has_headers()
                    && b.spec_headers() == self.spec_headers().insert(ascii_lower(key@), seq![value@]),
            },
    {
        let (name, v) = match check_header(key, value) {
            Ok(p) => p,
            Err(e) => return Err(e),
        };
        let mut headers = match self.headers {
            Some(h) => h,
            None => header_map_new(),
        };
        header_insert(&mut headers, name, v);
        Ok(ClientBuilder { headers: Some(headers), ..self })
    }

    /// Set the `X-Project` header for all requests, associating them with a project.
    pub fn project(self, project_id: &str) -> (r: Result<Self, LettaError>)
        requires
            self.has_header_room(),
        ensures
            match header_problem("X-Project"@, project_id@) {
                Some(m) => r matches Err(e) && e@ == (LettaErrorView::Validation { message: m, field: None }),
                None => r matches Ok(b) && b.spec_environment() == self.spec_environment()
                    && b.spec_base_url() == self.spec_base_url() && b.spec_auth() == self.spec_auth()
                    && b.spec_timeout() == self.spec_timeout() && b.has_headers()
                    && b.spec_headers() == self.spec_headers().insert(ascii_lower("X-Project"@), seq![project_id@]),
            },
    {
        self.header("X-Project", project_id)
    }

    /// Set the `user-id` header for all requests, identifying the user.
    pub fn user_id(self, user_id: &str) -> (r: Result<Self, LettaError>)
        requires
            self.has_header_room(),
        ensures
            match header_problem("user-id"@, user_id@) {
                Some(m) => r matches Err(e) && e@ == (LettaErrorView::Validation { message: m, field: None }),
                None => r matches Ok(b) && b.spec_environment() == self.spec_environment()
                    && b.spec_base_url() == self.spec_base_url() && b.spec_auth() == self.spec_auth()
                    && b.spec_timeout() == self.spec_timeout() && b.has_headers()
                    && b.spec_headers() == self.spec_headers().insert(ascii_lower("user-id"@), seq![user_id@]),
            },
    {
        self.header("user-id", user_id)
    }

    /// Whether building warns that authentication is missing: none was set, no base
    /// URL was set explicitly, and the environment (Cloud by default) needs it.
    pub fn warns_missing_auth(&self) -> (r: bool)
        ensures
            r == (self.spec_auth() is None && self.spec_base_url() is None
                && environment_or_default(self.spec_environment()) == LettaEnvironment::Cloud),
    {
        warns_missing_auth(self.environment, self.base_url.is_some(), self.auth.is_some())
    }

    /// The configuration the built client uses: the base URL set, else the
    /// environment's (Cloud by default), parsed; the authentication, timeout and
    /// headers set, else none, 30 seconds and none. A URL that does not parse is a URL
    /// error.
    pub fn build_config(self) -> (r: Result<ClientConfig, LettaError>)
        ensures
            match spec_url_parse(self.target_url()) {
                Ok(t) => r matches Ok(c) && url_text(c.base_url) == t
                    && c.auth == (match self.spec_auth() {
                        Some(a) => a,
                        None => AuthConfig::Unauthenticated,
                    })
                    && c.timeout == (match self.spec_timeout() {
                        Some(d) => d,
                        None => spec_duration_from_secs(30),
                    })
                    && header_entries(c.headers) == self.spec_headers(),
                Err(m) => r matches Err(e) && e@ == (LettaErrorView::Url { message: m }),
            },
    {
        let url = client_base_url(self.environment, self.base_url);
        let mut config = match ClientConfig::new(url.as_str()) {
            Ok(c) => c,
            Err(e) => return Err(e),
        };
        if let Some(auth) = self.auth {
            config = config.auth(auth);
        }
        if let Some(timeout) = self.timeout {
            config = config.timeout(timeout);
        }
        if let Some(headers) = self.headers {
            config = config.headers(headers);
        }
        Ok(config)
    }
}

/// Law: a base URL set on a builder is the one its client talks to, whatever environment
/// was set, before or after it.
pub proof fn law_base_url_overrides_environment(b: ClientBuilder, env: LettaEnvironment)
    requires
        b.spec_base_url() is Some,
    ensures
        b.target_url() == b.spec_base_url()->0,
        builder_base_url(Some(env), b.spec_base_url()) == b.target_url(),
{
}

} // verus!
