//! Requests that match no route of the bridge are forwarded to the hosted
//! site. This module resolves the request target against the site's
//! address, names the host the forwarded request is addressed to, and says
//! how each failure is answered.
use vstd::prelude::*;

verus! {

/// Address of the site that unmatched requests are forwarded to.
pub const PROXY_HOST: &'static str = "https://tangoapp.dev";

/// The serialization of the URL that the `url` crate's parser
/// (`ParseOptions::parse`) produces for `input` resolved against the URL
/// parsed from `base`, or `None` when either parse fails. The base is always
/// [`PROXY_HOST`] here, so the first parse only turns that fixed address
/// into a URL.
pub uninterp spec fn joined_url(base: Seq<char>, input: Seq<char>) -> Option<Seq<char>>;

/// The host, as the `url` crate's `host_str` gives it, of the URL that the
/// parser produces for `input` resolved against `base` (the URL of
/// [`joined_url`]); `None` when that URL has no host or does not parse.
pub uninterp spec fn joined_host(base: Seq<char>, input: Seq<char>) -> Option<Seq<char>>;

/// A character that the URL parser copies unchanged into the path and the
/// query of an `https` URL: ASCII letters and digits and `-._~!$&()*+,;=:@/?`.
pub open spec fn plain_target_char(c: char) -> bool {
    ('a' <= c && c <= 'z') || ('A' <= c && c <= 'Z') || ('0' <= c && c <= '9') || c == '-' || c
        == '.' || c == '_' || c == '~' || c == '!' || c == '$' || c == '&' || c == '(' || c == ')'
        || c == '*' || c == '+' || c == ',' || c == ';' || c == '=' || c == ':' || c == '@' || c
        == '/' || c == '?'
}

/// A request target in origin form (a path, optionally followed by `?` and a
/// query) that resolution leaves as it is: it starts with a single `/`, holds
/// only plain characters (so no `%`, `#`, `\` or space), and has no `/.`,
/// so no `.` or `..` segment.
pub open spec fn plain_origin_target(t: Seq<char>) -> bool {
    &&& t.len() > 0
    &&& t[0] == '/'
    &&& !(t.len() > 1 && t[1] == '/')
    &&& forall|i: int| 0 <= i < t.len() ==> plain_target_char(#[trigger] t[i])
    &&& forall|i: int| 0 <= i < t.len() - 1 ==> !(#[trigger] t[i] == '/' && t[i + 1] == '.')
}

/// The view of an optional string.
pub open spec fn opt_chars(s: Option<String>) -> Option<Seq<char>> {
    match s {
        Some(t) => Some(t@),
        None => None,
    }
}

/// Parses `base` with `reqwest::Url::parse` (the `url` crate's
/// `ParseOptions::parse` without a base), then parses `input` with
/// `ParseOptions::parse` against it (`Url::options().base_url(..).parse(..)`),
/// and returns the result's serialization with its `host_str`.
/// Trusted: the result is `joined_url(base, input)`, `None` when either
/// parse fails, and the host is `joined_host(base, input)`. For the site's
/// address as base and a plain origin-form target, the parser's path and
/// query rules (its percent-encode sets in `parser.rs`, dot-segment removal)
/// leave the target as it is, so the URL is the address followed by the
/// target, and the host is the address's host.
#[verifier::external_body]
fn resolve_url(base: &str, input: &str) -> (r: Option<(String, Option<String>)>)
    ensures
        r is Some <==> joined_url(base@, input@) is Some,
        r matches Some(p) ==> (p.0@ == joined_url(base@, input@)->Some_0 && opt_chars(p.1)
            == joined_host(base@, input@)),
        r is Some || !(base@ == PROXY_HOST@ && plain_origin_target(input@)),
        r matches Some(p) ==> (base@ == PROXY_HOST@ && plain_origin_target(input@) ==> p.0@
            == base@ + input@ && opt_chars(p.1) == Some("tangoapp.dev"@)),
{
    let base = reqwest::Url::parse(base).ok()?;
    let url = reqwest::Url::options().base_url(Some(&base)).parse(input).ok()?;
    let host = url.host_str().map(|h| h.to_string());
    Some((String::from(url), host))
}

/// Where a forwarded request goes.
#[derive(Debug)]
pub struct ProxyTarget {
    /// The absolute URL of the forwarded request.
    pub url: String,
    /// The value for its `Host` header; `None` when the URL has no host.
    pub host: Option<String>,
}

/// Why a request could not be forwarded.
#[derive(Clone, Copy, Debug, PartialEq, Eq, Structural)]
pub enum ProxyError {
    /// The target did not resolve, or the forwarded request could not be built.
    BadRequest,
    /// The site did not answer.
    BadGateway,
}

/// The step of forwarding at which a failure happened.
#[derive(Clone, Copy, Debug, PartialEq, Eq, Structural)]
pub enum ProxyStage {
    /// Resolving the request target against [`PROXY_HOST`].
    Resolve,
    /// Building the outgoing request.
    Build,
    /// Sending it and waiting for the answer.
    Send,
}

impl ProxyError {
    /// The answer to a failure at `stage`.
    pub fn at_stage(stage: ProxyStage) -> (e: ProxyError)
        ensures
            e == (match stage {
                ProxyStage::Send => ProxyError::BadGateway,
                _ => ProxyError::BadRequest,
            }),
    {
        match stage {
            ProxyStage::Send => ProxyError::BadGateway,
            _ => ProxyError::BadRequest,
        }
    }

    /// The HTTP status of the answer.
    pub fn status(&self) -> (code: u16)
        ensures
            code == (match self {
                ProxyError::BadRequest => 400u16,
                ProxyError::BadGateway => 502u16,
            }),
    {
        match self {
            ProxyError::BadRequest => 400,
            ProxyError::BadGateway => 502,
        }
    }

    /// The body of the answer.
    pub fn reason(&self) -> (text: String)
        ensures
            text@ == (match self {
                ProxyError::BadRequest => "Bad Request"@,
                ProxyError::BadGateway => "Bad Gateway"@,
            }),
    {
        match self {
            ProxyError::BadRequest => String::from_str("Bad Request"),
            ProxyError::BadGateway => String::from_str("Bad Gateway"),
        }
    }
}

/// Turns the resolution of a request target into where the request goes:
/// a target that did not resolve is a bad request; otherwise the URL and its
/// host are kept as they are.
pub fn target_from_resolution(resolved: Option<(String, Option<String>)>) -> (r: Result<
    ProxyTarget,
    ProxyError,
>)
    ensures
        resolved is None ==> r == Err::<ProxyTarget, ProxyError>(ProxyError::BadRequest),
        resolved matches Some(p) ==> (r matches Ok(t) && t.url@ == p.0@ && opt_chars(t.host)
            == opt_chars(p.1)),
{
    match resolved {
        None => Err(ProxyError::BadRequest),
        Some((url, host)) => Ok(ProxyTarget { url, host }),
    }
}

/// Where a request with target `uri` (path and query, or an absolute URL) is
/// forwarded: `uri` resolved against [`PROXY_HOST`], addressed to that URL's
/// host; a bad request when it does not resolve. A plain path-and-query
/// target is forwarded unchanged to the site: the URL is [`PROXY_HOST`]
/// followed by the target, letter case and all, addressed to `tangoapp.dev`.
pub fn proxy_target(uri: &str) -> (r: Result<ProxyTarget, ProxyError>)
    ensures
        joined_url(PROXY_HOST@, uri@) is None ==> r == Err::<ProxyTarget, ProxyError>(
            ProxyError::BadRequest,
        ),
        joined_url(PROXY_HOST@, uri@) matches Some(u) ==> (r matches Ok(t) && t.url@ == u
            && opt_chars(t.host) == joined_host(PROXY_HOST@, uri@)),
        plain_origin_target(uri@) ==> (r matches Ok(t) && t.url@ == PROXY_HOST@ + uri@
            && opt_chars(t.host) == Some("tangoapp.dev"@)),
{
    let resolved = resolve_url(PROXY_HOST, uri);
    target_from_resolution(resolved)
}

} // verus!
