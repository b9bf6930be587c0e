//! The connection settings of a Matrix session: the homeserver address,
//! the signed-in account and the client, and the checks an address passes
//! before the network is asked about it.
use vstd::prelude::*;

use crate::data::models::opt_view;
use crate::models::user::User;
use crate::text::{
    contains_seq, decimal, lowercase, push_decimal, str_contains, string_of, to_lowercase,
};

verus! {

#[verifier::external_type_specification]
#[verifier::external_body]
pub struct ExClient(matrix_sdk::Client);

#[derive(Debug)]
pub struct MatrixService {
    pub homeserver_url: Option<String>,
    pub user: Option<User>,
    pub client: Option<matrix_sdk::Client>,
}

/// Why a homeserver address was refused.
#[derive(Debug)]
pub enum HomeserverError {
    /// No address was given.
    Empty,
    /// The address does not read as a URL.
    InvalidUrl,
    /// The URL's host and port are not a Matrix server name.
    InvalidServerName,
    /// The server could not be reached.
    Unreachable,
    /// The server answered with another error, whose text this is.
    ValidationFailed(String),
    /// No client could be made for the address; the text says why.
    ClientFailed(String),
}

/// `s` begins with `p`.
pub open spec fn starts_with(s: Seq<char>, p: Seq<char>) -> bool {
    p.len() <= s.len() && s.take(p.len() as int) == p
}

/// The URL of a homeserver address: the address itself when it names
/// `http://` or `https://`, else the address behind `https://`.
pub open spec fn homeserver_url_text(h: Seq<char>) -> Seq<char> {
    if starts_with(h, "http://"@) || starts_with(h, "https://"@) {
        h
    } else {
        "https://"@ + h
    }
}

/// Normalizing an address that is already a URL leaves it unchanged.
pub proof fn lemma_homeserver_url_stable(h: Seq<char>)
    ensures
        homeserver_url_text(homeserver_url_text(h)) == homeserver_url_text(h),
{
    if !(starts_with(h, "http://"@) || starts_with(h, "https://"@)) {
        reveal_strlit("https://");
        let u = "https://"@ + h;
        assert(u.take("https://"@.len() as int) =~= "https://"@);
    }
}

/// What `url::Url::parse` reads from a text: `None` when it is no URL,
/// else the URL's host (`host_str`) and explicit port (`port`).
pub uninterp spec fn url_host_port(text: Seq<char>) -> Option<(Option<Seq<char>>, Option<u16>)>;

/// Whether `ServerName::parse` accepts a text as a Matrix server name.
pub uninterp spec fn is_server_name(text: Seq<char>) -> bool;

/// A character allowed in a server name's host: ASCII letters and
/// digits, `-` and `.`.
pub open spec fn is_host_char(c: char) -> bool {
    ||| ('a' <= c && c <= 'z')
    ||| ('A' <= c && c <= 'Z')
    ||| ('0' <= c && c <= '9')
    ||| c == '-'
    ||| c == '.'
}

/// `host:port`, or the host alone without a port (an absent host is empty).
pub open spec fn host_with_port(host: Option<Seq<char>>, port: Option<u16>) -> Seq<char> {
    let h = match host {
        Some(x) => x,
        None => Seq::empty(),
    };
    match port {
        Some(p) => h + ":"@ + decimal(p as nat),
        None => h,
    }
}

/// The error texts that still show a Matrix homeserver answering.
pub open spec fn answers_as_homeserver(lower: Seq<char>) -> bool {
    ||| contains_seq(lower, "no access token"@)
    ||| contains_seq(lower, "auth"@)
    ||| contains_seq(lower, "unauthorized"@)
    ||| contains_seq(lower, "403"@)
    ||| contains_seq(lower, "401"@)
    ||| contains_seq(lower, "404"@)
    ||| contains_seq(lower, "not found"@)
    ||| contains_seq(lower, "capabilities"@)
}

/// The error texts of a failed connection.
pub open spec fn is_network_failure(lower: Seq<char>) -> bool {
    ||| contains_seq(lower, "connection"@)
    ||| contains_seq(lower, "timeout"@)
    ||| contains_seq(lower, "network"@)
    ||| contains_seq(lower, "dns"@)
}

/// The message shown for a refused address.
pub open spec fn homeserver_error_text(e: HomeserverError) -> Seq<char> {
    match e {
        HomeserverError::Empty => "Homeserver cannot be empty"@,
        HomeserverError::InvalidUrl => "Invalid homeserver URL format"@,
        HomeserverError::InvalidServerName => "Invalid Matrix homeserver format"@,
        HomeserverError::Unreachable => "Homeserver not reachable: network error"@,
        HomeserverError::ValidationFailed(e) => "Homeserver validation failed: "@ + e@,
        HomeserverError::ClientFailed(e) => "Failed to create client for homeserver: "@ + e@,
    }
}

/// `url::Url::parse(text)`, read as its host (`host_str`) and explicit
/// port (`port`); `None` when the text is no URL. Claimed: the result is
/// `url_host_port` of the text, a function of the text alone.
#[verifier::external_body]
fn parse_url_host_port(text: &str) -> (r: Option<(Option<String>, Option<u16>)>)
    ensures
        url_host_port(text@) == match r {
            Some((h, p)) => Some((opt_view(h), p)),
            None => None,
        },
{
    match url::Url::parse(text) {
        Ok(u) => Some((
            match u.host_str() {
                Some(h) => Some(h.to_string()),
                None => None,
            },
            u.port(),
        )),
        Err(_) => None,
    }
}

/// Whether `matrix_sdk::ServerName::parse` accepts `text`. Claimed, as
/// the validation in `ruma-identifiers-validation` shows: the answer is
/// `is_server_name` of the text; an empty text is refused; a non-empty
/// text of host characters alone (no port) is accepted.
#[verifier::external_body]
fn server_name_parses(text: &str) -> (b: bool)
    ensures
        b == is_server_name(text@),
        text@.len() == 0 ==> !b,
        text@.len() > 0 && (forall|i: int| 0 <= i < text@.len() ==> is_host_char(#[trigger] text@[i]))
            ==> b,
{
    matrix_sdk::ServerName::parse(text).is_ok()
}

/// Whether `s` begins with `p`.
fn has_prefix(s: &str, p: &str) -> (b: bool)
    ensures
        b == starts_with(s@, p@),
{
    let n = p.unicode_len();
    if s.unicode_len() < n {
        return false;
    }
    let mut i: usize = 0;
    while i < n
        invariant
            n == p@.len(),
            n <= s@.len(),
            i <= n,
            s@.take(i as int) == p@.take(i as int),
        decreases n - i,
    {
        if s.get_char(i) != p.get_char(i) {
            assert(s@.take(n as int)[i as int] != p@[i as int]);
            return false;
        }
        i += 1;
        assert(s@.take(i as int) =~= p@.take(i as int));
    }
    assert(p@.take(n as int) =~= p@);
    true
}

/// The URL of a homeserver address (see `homeserver_url_text`).
pub fn normalized_homeserver_url(homeserver: &str) -> (r: String)
    ensures
        r@ == homeserver_url_text(homeserver@),
{
    if has_prefix(homeserver, "http://") || has_prefix(homeserver, "https://") {
        string_of(homeserver)
    } else {
        let mut url = string_of("https://");
        url.append(homeserver);
        url
    }
}

/// The URL to contact for a homeserver address; an empty address is
/// refused.
pub fn homeserver_target(homeserver: &str) -> (r: Result<String, HomeserverError>)
    ensures
        homeserver@.len() == 0 ==> r matches Err(HomeserverError::Empty),
        homeserver@.len() > 0 ==> (r matches Ok(u) && u@ == homeserver_url_text(homeserver@)),
{
    if homeserver.is_empty() {
        return Err(HomeserverError::Empty);
    }
    Ok(normalized_homeserver_url(homeserver))
}

/// The checks of a homeserver address made before the network is asked:
/// it is not empty, its URL parses, and the URL's host and port form a
/// Matrix server name. The result is the URL to contact.
pub fn prepare_homeserver_check(homeserver: &str) -> (r: Result<String, HomeserverError>)
    ensures
        homeserver@.len() == 0 ==> r matches Err(HomeserverError::Empty),
        homeserver@.len() > 0 ==> match url_host_port(homeserver_url_text(homeserver@)) {
            None => r matches Err(HomeserverError::InvalidUrl),
            Some((h, p)) => if is_server_name(host_with_port(h, p)) {
                r matches Ok(u) && u@ == homeserver_url_text(homeserver@)
            } else {
                r matches Err(HomeserverError::InvalidServerName)
            },
        },
{
    let url = match homeserver_target(homeserver) {
        Ok(u) => u,
        Err(e) => return Err(e),
    };
    let (host, port) = match parse_url_host_port(url.as_str()) {
        Some(parts) => parts,
        None => return Err(HomeserverError::InvalidUrl),
    };
    let mut name = match host {
        Some(h) => h,
        None => String::new(),
    };
    if let Some(p) = port {
        name.append(":");
        push_decimal(&mut name, p as u64);
    }
    if !server_name_parses(name.as_str()) {
        return Err(HomeserverError::InvalidServerName);
    }
    Ok(url)
}

/// The verdict on an error the server gave when asked for its
/// capabilities, from the error's text: errors about authentication or a
/// missing resource still show a homeserver; connection errors show an
/// unreachable one; any other error is a failed check.
pub fn capabilities_error_verdict(error_text: &str) -> (r: Result<(), HomeserverError>)
    ensures
        answers_as_homeserver(lowercase(error_text@)) ==> r is Ok,
        !answers_as_homeserver(lowercase(error_text@)) && is_network_failure(lowercase(error_text@))
            ==> r matches Err(HomeserverError::Unreachable),
        !answers_as_homeserver(lowercase(error_text@)) && !is_network_failure(
            lowercase(error_text@),
        ) ==> (r matches Err(HomeserverError::ValidationFailed(m)) && m@ == error_text@),
{
    let lower = to_lowercase(error_text);
    let l = lower.as_str();
    if str_contains(l, "no access token") || str_contains(l, "auth") || str_contains(
        l,
        "unauthorized",
    ) || str_contains(l, "403") || str_contains(l, "401") || str_contains(l, "404")
        || str_contains(l, "not found") || str_contains(l, "capabilities") {
        Ok(())
    } else if str_contains(l, "connection") || str_contains(l, "timeout") || str_contains(
        l,
        "network",
    ) || str_contains(l, "dns") {
        Err(HomeserverError::Unreachable)
    } else {
        Err(HomeserverError::ValidationFailed(string_of(error_text)))
    }
}

impl HomeserverError {
    /// The message shown for the error.
    pub fn message(&self) -> (r: String)
        ensures
            r@ == homeserver_error_text(*self),
    {
        match self {
            HomeserverError::Empty => string_of("Homeserver cannot be empty"),
            HomeserverError::InvalidUrl => string_of("Invalid homeserver URL format"),
            HomeserverError::InvalidServerName => string_of("Invalid Matrix homeserver format"),
            HomeserverError::Unreachable => string_of("Homeserver not reachable: network error"),
            HomeserverError::ValidationFailed(e) => {
                let mut t = string_of("Homeserver validation failed: ");
                t.append(e.as_str());
                t
            },
            HomeserverError::ClientFailed(e) => {
                let mut t = string_of("Failed to create client for homeserver: ");
                t.append(e.as_str());
                t
            },
        }
    }
}

impl MatrixService {
    pub fn new() -> (r: Self)
        ensures
            r.homeserver_url is None,
            r.user is None,
            r.client is None,
    {
        MatrixService { homeserver_url: None, user: None, client: None }
    }

    /// Sets the homeserver to contact, as a URL (see `homeserver_url_text`).
    pub fn set_homeserver(&mut self, homeserver: &str)
        ensures
            final(self).homeserver_url matches Some(u) && u@ == homeserver_url_text(homeserver@),
            final(self).user == old(self).user,
            final(self).client == old(self).client,
    {
        self.homeserver_url = Some(normalized_homeserver_url(homeserver));
    }
}

} // verus!
