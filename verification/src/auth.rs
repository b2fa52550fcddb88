//! Authentication handling for the Letta client: bearer tokens for Letta Cloud and
//! no authentication for local servers.

use vstd::prelude::*;
use reqwest::header::{HeaderMap, HeaderName, HeaderValue};
use crate::error::{LettaError, LettaErrorView};
use crate::text::{byte_len, trim_ws, contains, chars_of, trim_chars, TrimSet, string_of, push_str};

verus! {

#[verifier::external_type_specification]
#[verifier::external_body]
#[verifier::reject_recursive_types(T)]
pub struct ExHeaderMap<T>(HeaderMap<T>);

#[verifier::external_type_specification]
#[verifier::external_body]
pub struct ExHeaderValue(HeaderValue);

/// `HeaderMap`'s `clone` (derived, for any value type). Nothing is stated of the copy:
/// the names that speak of a map's entries are for maps of `HeaderValue` alone.
pub assume_specification<T: core::clone::Clone>[<reqwest::header::HeaderMap<T> as core::clone::Clone>::clone](
    m: &reqwest::header::HeaderMap<T>,
) -> reqwest::header::HeaderMap<T>;

/// The headers a map holds: each name (lower case) with its values' text, in order.
pub uninterp spec fn header_entries(m: HeaderMap) -> Map<Seq<char>, Seq<Seq<char>>>;

/// The text a header value was made from.
pub uninterp spec fn header_value_text(v: HeaderValue) -> Seq<char>;

/// Characters a header value may hold: tab, and everything from space up except DEL
/// (each UTF-8 byte of a character beyond ASCII is at least 0x80 and so allowed).
pub open spec fn header_value_char(c: char) -> bool {
    c == '\t' || (' ' <= c && c != '\u{7f}')
}

pub open spec fn valid_header_value(s: Seq<char>) -> bool {
    forall|i: int| 0 <= i < s.len() ==> header_value_char(#[trigger] s[i])
}

/// `HeaderValue::from_str`: accepts exactly the texts whose bytes are all at least 32
/// and not 127, or tab; the value keeps the text.
#[verifier::external_body]
pub(crate) fn header_value_from_str(s: &str) -> (r: Option<HeaderValue>)
    ensures
        r is Some <==> valid_header_value(s@),
        r matches Some(v) ==> header_value_text(v) == s@,
{
    HeaderValue::from_str(s).ok()
}

#[verifier::external_type_specification]
#[verifier::external_body]
pub struct ExHeaderName(HeaderName);

/// The text of a header name.
pub uninterp spec fn header_name_text(n: HeaderName) -> Seq<char>;

/// The map can take one more header name without the growth that `HeaderMap` refuses.
/// Its table never grows past 32768 slots: it grows when full (three quarters of the
/// slots in use) and, once its hashing has degraded, when a fifth of the slots are in
/// use. A map of at most 6553 names never asks for a table past that size.
pub open spec fn header_room(m: HeaderMap) -> bool {
    header_entries(m).dom().len() <= 6553
}

/// The entries of a map without headers.
pub open spec fn no_headers() -> Map<Seq<char>, Seq<Seq<char>>> {
    Map::empty()
}

/// `HeaderMap::new`: an empty map.
#[verifier::external_body]
pub(crate) fn header_map_new() -> (r: HeaderMap)
    ensures
        header_entries(r) == no_headers(),
{
    HeaderMap::new()
}

/// `HeaderMap::keys_len`: the number of distinct names the map holds.
#[verifier::external_body]
pub(crate) fn header_names_len(m: &HeaderMap) -> (r: usize)
    ensures
        r == header_entries(*m).dom().len(),
{
    m.keys_len()
}

/// The `authorization` header name.
#[verifier::external_body]
pub(crate) fn authorization_name() -> (r: HeaderName)
    ensures
        header_name_text(r) == "authorization"@,
{
    reqwest::header::AUTHORIZATION
}

/// `HeaderMap::insert`: the name's values become the single value given. It is called
/// only where the map has room, since `insert` panics when its table cannot grow.
#[verifier::external_body]
pub(crate) fn header_insert(headers: &mut HeaderMap, name: HeaderName, value: HeaderValue)
    requires
        header_room(*old(headers)),
    ensures
        header_entries(*final(headers)) == header_entries(*old(headers)).insert(
            header_name_text(name),
            seq![header_value_text(value)],
        ),
{
    headers.insert(name, value);
}

/// Authentication configuration for the Letta client.
#[derive(Debug)]
pub enum AuthConfig {
    /// No authentication (for local servers).
    Unauthenticated,
    /// Bearer token authentication.
    Bearer {
        /// The bearer token.
        token: String,
    },
}

impl Clone for AuthConfig {
    fn clone(&self) -> (r: Self)
        ensures
            r == *self,
    {
        match self {
            AuthConfig::Unauthenticated => AuthConfig::Unauthenticated,
            AuthConfig::Bearer { token } => AuthConfig::Bearer { token: token.clone() },
        }
    }
}

impl Default for AuthConfig {
    fn default() -> (r: Self)
        ensures
            r is Unauthenticated,
    {
        AuthConfig::Unauthenticated
    }
}

/// Why a bearer token is refused, if it is: blank, holding a line break, or longer than
/// 1024 bytes (checked in that order).
pub open spec fn token_problem(token: Seq<char>) -> Option<Seq<char>> {
    if trim_ws(token).len() == 0 {
        Some("Bearer token cannot be empty"@)
    } else if contains(token, seq!['\n']) || contains(token, seq!['\r']) {
        Some("Bearer token cannot contain newlines"@)
    } else if byte_len(token) > 1024 {
        Some("Bearer token is too long (max 1024 characters)"@)
    } else {
        None
    }
}

impl AuthConfig {
    /// Create a new bearer token authentication configuration.
    pub fn bearer(token: &str) -> (r: Self)
        ensures
            r matches AuthConfig::Bearer { token: t } && t@ == token@,
    {
        AuthConfig::Bearer { token: token.to_string() }
    }

    /// Create a new no-authentication configuration.
    pub fn none() -> (r: Self)
        ensures
            r is Unauthenticated,
    {
        AuthConfig::Unauthenticated
    }

    /// Check if authentication is configured.
    pub fn is_authenticated(&self) -> (r: bool)
        ensures
            r == (self is Bearer),
    {
        match self {
            AuthConfig::Unauthenticated => false,
            AuthConfig::Bearer { .. } => true,
        }
    }

    /// Get the authentication type as a string.
    pub fn auth_type(&self) -> (r: &'static str)
        ensures
            r@ == match self {
                AuthConfig::Unauthenticated => "none"@,
                AuthConfig::Bearer { .. } => "bearer"@,
            },
    {
        match self {
            AuthConfig::Unauthenticated => "none",
            AuthConfig::Bearer { .. } => "bearer",
        }
    }

    /// The configuration's display text.
    pub fn to_string(&self) -> (r: String)
        ensures
            r@ == match self {
                AuthConfig::Unauthenticated => "No authentication"@,
                AuthConfig::Bearer { .. } => "Bearer token authentication"@,
            },
    {
        match self {
            AuthConfig::Unauthenticated => "No authentication".to_string(),
            AuthConfig::Bearer { .. } => "Bearer token authentication".to_string(),
        }
    }

    /// Validate the authentication configuration: no authentication is always valid; a
    /// bearer token must not be blank, hold line breaks or exceed 1024 bytes.
    pub fn validate(&self) -> (r: Result<(), LettaError>)
        ensures
            match self {
                AuthConfig::Unauthenticated => r is Ok,
                AuthConfig::Bearer { token } => match token_problem(token@) {
                    Some(m) => r matches Err(e) && e@ == (LettaErrorView::Auth { message: m }),
                    None => r is Ok,
                },
            },
    {
        match self {
            AuthConfig::Unauthenticated => Ok(()),
            AuthConfig::Bearer { token } => {
                let t = chars_of(token.as_str());
                if trim_chars(&t, TrimSet::Whitespace).len() == 0 {
                    return Err(LettaError::auth("Bearer token cannot be empty"));
                }
                let nl: [char; 1] = ['\n'];
                let cr: [char; 1] = ['\r'];
                assert(nl@ =~= seq!['\n']);
                assert(cr@ =~= seq!['\r']);
                if crate::text::find_chars(&t, nl.as_slice()).is_some()
                    || crate::text::find_chars(&t, cr.as_slice()).is_some() {
                    return Err(LettaError::auth("Bearer token cannot contain newlines"));
                }
                proof {
                    assert(t@.take(t@.len() as int) == t@);
                }
                if crate::text::byte_len_prefix(&t, t.len()) > 1024 {
                    return Err(LettaError::auth("Bearer token is too long (max 1024 characters)"));
                }
                Ok(())
            },
        }
    }

    /// Whether applying this authentication inserts a header: a bearer token whose
    /// header value is valid.
    pub open spec fn inserts_header(self) -> bool {
        self matches AuthConfig::Bearer { token } && valid_header_value("Bearer "@ + token@)
    }

    /// Apply authentication to HTTP headers: a bearer token sets `authorization` to
    /// `Bearer <token>`; an invalid header value is an authentication error and leaves
    /// the headers as they were. Where a header is inserted, the map must have room
    /// (see [`header_room`]).
    pub fn apply_to_headers(&self, headers: &mut HeaderMap) -> (r: Result<(), LettaError>)
        requires
            self.inserts_header() ==> header_room(*old(headers)),
        ensures
            match self {
                AuthConfig::Unauthenticated => r is Ok && *final(headers) == *old(headers),
                AuthConfig::Bearer { token } => if valid_header_value("Bearer "@ + token@) {
                    r is Ok && header_entries(*final(headers)) == header_entries(*old(headers)).insert(
                        "authorization"@,
                        seq!["Bearer "@ + token@],
                    )
                } else {
                    r matches Err(e) && e@ == (LettaErrorView::Auth { message: "Invalid bearer token format"@ })
                        && *final(headers) == *old(headers)
                },
            },
    {
        match self {
            AuthConfig::Unauthenticated => Ok(()),
            AuthConfig::Bearer { token } => {
                let mut v: Vec<char> = Vec::new();
                push_str(&mut v, "Bearer ");
                push_str(&mut v, token.as_str());
                let value = string_of(&v);
                match header_value_from_str(value.as_str()) {
                    Some(hv) => {
                        header_insert(headers, authorization_name(), hv);
                        Ok(())
                    },
                    None => Err(LettaError::auth("Invalid bearer token format")),
                }
            },
        }
    }

    /// Like [`AuthConfig::apply_to_headers`], but `None`, with the headers unchanged,
    /// where a header would be inserted into a map without room.
    pub fn try_apply_to_headers(&self, headers: &mut HeaderMap) -> (r: Option<Result<(), LettaError>>)
        ensures
            r is None <==> (self.inserts_header() && !header_room(*old(headers))),
            r is None ==> *final(headers) == *old(headers),
            r matches Some(res) ==> match self {
                AuthConfig::Unauthenticated => res is Ok && *final(headers) == *old(headers),
                AuthConfig::Bearer { token } => if valid_header_value("Bearer "@ + token@) {
                    res is Ok && header_entries(*final(headers)) == header_entries(*old(headers)).insert(
                        "authorization"@,
                        seq!["Bearer "@ + token@],
                    )
                } else {
                    res matches Err(e) && e@ == (LettaErrorView::Auth { message: "Invalid bearer token format"@ })
                        && *final(headers) == *old(headers)
                },
            },
    {
        let n = header_names_len(headers);
        let inserts = match self {
            AuthConfig::Unauthenticated => false,
            AuthConfig::Bearer { token } => {
                let mut v: Vec<char> = Vec::new();
                push_str(&mut v, "Bearer ");
                push_str(&mut v, token.as_str());
                let value = string_of(&v);
                header_value_from_str(value.as_str()).is_some()
            },
        };
        if inserts && n > 6553 {
            return None;
        }
        Some(self.apply_to_headers(headers))
    }
}

/// Picks the authentication that the environment variables `LETTA_API_KEY`,
/// `LETTA_TOKEN` and `LETTA_AUTH_TOKEN` (their values, in that order) give: the first
/// that is set and not blank becomes a bearer token, trimmed.
pub fn auth_from_env_values(values: &[Option<String>]) -> (r: Option<AuthConfig>)
    ensures
        match first_token(values@, 0) {
            Some(i) => r matches Some(AuthConfig::Bearer { token }) && token@ == trim_ws(values@[i].unwrap()@),
            None => r is None,
        },
{
    let mut i: usize = 0;
    while i < values.len()
        invariant
            i <= values@.len(),
            first_token(values@, 0) == first_token(values@, i as int),
        decreases values@.len() - i,
    {
        if let Some(v) = &values[i] {
            let t = chars_of(v.as_str());
            let tr = trim_chars(&t, TrimSet::Whitespace);
            if tr.len() > 0 {
                return Some(AuthConfig::Bearer { token: string_of(&tr) });
            }
        }
        i = i + 1;
    }
    None
}

/// Index of the first set, non-blank value at or after `i`.
pub open spec fn first_token(values: Seq<Option<String>>, i: int) -> Option<int>
    decreases values.len() - i,
{
    if i < 0 || i >= values.len() {
        None
    } else if values[i] matches Some(v) && trim_ws(v@).len() > 0 {
        Some(i)
    } else {
        first_token(values, i + 1)
    }
}

/// Law: a bearer token is refused when it is blank, holds a line break or is longer
/// than 1024 bytes, and accepted otherwise; a blank token is reported as empty even
/// when it holds line breaks.
pub proof fn law_token_refusals(token: Seq<char>)
    ensures
        trim_ws(token).len() == 0 ==> token_problem(token) == Some("Bearer token cannot be empty"@),
        trim_ws(token).len() != 0 && (contains(token, seq!['\n']) || contains(token, seq!['\r']))
            ==> token_problem(token) == Some("Bearer token cannot contain newlines"@),
        byte_len(token) > 1024 ==> token_problem(token) is Some,
        trim_ws(token).len() != 0 && !contains(token, seq!['\n']) && !contains(token, seq!['\r'])
            && byte_len(token) <= 1024 ==> token_problem(token) is None,
{
}

} // verus!
