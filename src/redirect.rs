//! The plain-HTTP listener's rewrite of a request into an HTTPS redirect.
use vstd::prelude::*;
use crate::config::Addresses;
use crate::resolver::{get_port, port_of};

verus! {

/// Why a redirect could not be served.
#[derive(Debug, Clone, PartialEq, Eq)]
pub enum RedirectError {
    /// The redirect address resolved to no IPv4 address.
    Ipv4NotFound,
    /// Binding or serving failed.
    Io(String),
    /// The rebuilt URI was refused as a whole.
    InvalidUriParts(String),
    /// The rewritten host is no valid URI authority.
    InvalidUri(String),
    /// No plain-HTTP address is configured.
    MissingProxyHttp,
}

impl RedirectError {
    /// The text shown for the error.
    pub fn message(&self) -> (r: String)
        ensures
            r@ == match self {
                RedirectError::Ipv4NotFound => "ipv4 address not found"@,
                RedirectError::Io(m) => m@,
                RedirectError::InvalidUriParts(m) => m@,
                RedirectError::InvalidUri(m) => m@,
                RedirectError::MissingProxyHttp =>
                    "address proxy_http config section needs to be configured"@,
            },
    {
        match self {
            RedirectError::Ipv4NotFound => String::from_str("ipv4 address not found"),
            RedirectError::Io(m) => m.clone(),
            RedirectError::InvalidUriParts(m) => m.clone(),
            RedirectError::InvalidUri(m) => m.clone(),
            RedirectError::MissingProxyHttp => String::from_str(
                "address proxy_http config section needs to be configured",
            ),
        }
    }
}

/// Whether `http::uri::Authority` accepts a text.
pub uninterp spec fn authority_accepts(s: Seq<char>) -> bool;

/// Relies on `http::uri::Authority`'s `FromStr`: whether the text parses as
/// a URI authority, and the parse error's text when it does not.
#[verifier::external_body]
fn parse_authority(s: &str) -> (r: Result<(), String>)
    ensures
        r is Ok <==> authority_accepts(s@),
{
    match s.parse::<axum::http::uri::Authority>() {
        Ok(_) => Ok(()),
        Err(e) => Err(e.to_string()),
    }
}

/// `s` with every occurrence of `from` replaced by `to`, scanning from the
/// left without overlaps. An empty `from` leaves `s` as it is.
pub open spec fn replace_all(s: Seq<char>, from: Seq<char>, to: Seq<char>) -> Seq<char>
    decreases s.len(),
{
    if from.len() == 0 || s.len() < from.len() {
        s
    } else if s.subrange(0, from.len() as int) == from {
        to + replace_all(s.subrange(from.len() as int, s.len() as int), from, to)
    } else {
        seq![s[0]] + replace_all(s.subrange(1, s.len() as int), from, to)
    }
}

/// Whether `from` occurs in `s` at position `i`.
fn occurs_at(s: &str, n: usize, i: usize, from: &str, m: usize) -> (b: bool)
    requires
        n == s@.len(),
        m == from@.len(),
        i <= n,
        m <= n - i,
    ensures
        b == (s@.subrange(i as int, i + m) == from@),
{
    let mut k: usize = 0;
    while k < m
        invariant
            k <= m,
            n == s@.len(),
            m == from@.len(),
            i + m <= n,
            forall|j: int| 0 <= j < k ==> s@[i + j] == from@[j],
        decreases m - k,
    {
        if s.get_char(i + k) != from.get_char(k) {
            assert(s@.subrange(i as int, i + m)[k as int] != from@[k as int]);
            return false;
        }
        k = k + 1;
    }
    assert(s@.subrange(i as int, i + m) =~= from@);
    true
}

/// Replaces every occurrence of a non-empty `from` in `s` by `to`, as
/// `str::replace` does.
pub fn replace_text(s: &str, from: &str, to: &str) -> (r: String)
    requires
        from@.len() > 0,
    ensures
        r@ == replace_all(s@, from@, to@),
{
    let n = s.unicode_len();
    let m = from.unicode_len();
    let mut out = String::new();
    let mut i: usize = 0;
    assert(s@.subrange(0, n as int) =~= s@);
    assert(out@ + replace_all(s@, from@, to@) =~= replace_all(s@, from@, to@));
    while i < n
        invariant
            i <= n,
            n == s@.len(),
            m == from@.len(),
            m > 0,
            out@ + replace_all(s@.subrange(i as int, n as int), from@, to@) == replace_all(
                s@,
                from@,
                to@,
            ),
        decreases n - i,
    {
        let ghost rest = s@.subrange(i as int, n as int);
        let ghost prev = out@;
        if m <= n - i && occurs_at(s, n, i, from, m) {
            proof {
                assert(rest.subrange(0, m as int) =~= s@.subrange(i as int, i + m));
                assert(rest.subrange(m as int, rest.len() as int) =~= s@.subrange(
                    i + m,
                    n as int,
                ));
            }
            out.append(to);
            i = i + m;
            proof {
                assert(out@ + replace_all(s@.subrange(i as int, n as int), from@, to@) =~= prev
                    + replace_all(rest, from@, to@));
            }
        } else {
            let c = s.substring_char(i, i + 1);
            proof {
                assert(rest.subrange(1, rest.len() as int) =~= s@.subrange(i + 1, n as int));
                if m <= n - i {
                    assert(rest.subrange(0, m as int) =~= s@.subrange(i as int, i + m));
                }
                assert(c@ =~= seq![rest[0]]);
            }
            out.append(c);
            i = i + 1;
            proof {
                assert(out@ + replace_all(s@.subrange(i as int, n as int), from@, to@) =~= prev
                    + replace_all(rest, from@, to@));
            }
        }
    }
    assert(replace_all(s@.subrange(n as int, n as int), from@, to@) =~= Seq::<char>::empty());
    assert(out@ =~= out@ + Seq::<char>::empty());
    out
}

/// The port texts a redirect swaps: the plain-HTTP one and the TLS one.
#[derive(Debug, Clone, PartialEq, Eq)]
pub struct RedirectPorts {
    pub http: String,
    pub https: String,
}

impl RedirectPorts {
    /// The plain-HTTP port is a non-empty text, so that it can be searched for.
    pub open spec fn wf(&self) -> bool {
        self.http@.len() > 0
    }
}

/// The port text of an address, or a default where it has none.
pub open spec fn port_or(addr: Seq<char>, default: Seq<char>) -> Seq<char> {
    match port_of(addr) {
        Some(p) => p,
        None => default,
    }
}

/// The ports of the redirect listener: the plain-HTTP address's port or
/// `80`, and the proxy address's port or `443`. An error when no plain-HTTP
/// address is configured.
pub fn redirect_ports(addresses: &Addresses) -> (r: Result<RedirectPorts, RedirectError>)
    ensures
        match addresses.proxy_http {
            None => r == Err::<RedirectPorts, RedirectError>(RedirectError::MissingProxyHttp),
            Some(h) => r is Ok && r.unwrap().wf() && r.unwrap().http@ == port_or(h@, "80"@)
                && r.unwrap().https@ == port_or(addresses.proxy@, "443"@),
        },
{
    let proxy_http = match &addresses.proxy_http {
        Some(h) => h,
        None => {
            return Err(RedirectError::MissingProxyHttp);
        },
    };
    let http = match get_port(proxy_http.as_str()) {
        Some(p) => String::from_str(p),
        None => String::from_str("80"),
    };
    let https = match get_port(addresses.proxy.as_str()) {
        Some(p) => String::from_str(p),
        None => String::from_str("443"),
    };
    proof {
        reveal_strlit("80");
        let p = http@;
        if port_of(proxy_http@) is Some {
            let d = crate::resolver::unsigned_digits(p);
            assert(d.len() > 0);
        }
    }
    Ok(RedirectPorts { http, https })
}

/// The host with the plain-HTTP port text replaced by the TLS one.
pub open spec fn https_host(host: Seq<char>, ports: RedirectPorts) -> Seq<char> {
    replace_all(host, ports.http@, ports.https@)
}

/// The redirect target for an HTTPS host and the request's path and query
/// (`/` where it has none).
pub open spec fn https_target(authority: Seq<char>, path_and_query: Option<Seq<char>>) -> Seq<
    char,
> {
    "https://"@ + authority + match path_and_query {
        Some(p) => p,
        None => "/"@,
    }
}

/// `https://`, the authority, then the path and query, or `/`.
pub fn redirect_target(authority: &str, path_and_query: Option<&str>) -> (r: String)
    ensures
        r@ == https_target(
            authority@,
            match path_and_query {
                Some(p) => Some(p@),
                None => None,
            },
        ),
{
    let mut r = String::from_str("https://");
    r.append(authority);
    match path_and_query {
        Some(p) => r.append(p),
        None => r.append("/"),
    }
    r
}

/// Rewrites a request into its HTTPS redirect target: the Host header with
/// the plain-HTTP port text replaced by the TLS one, scheme `https`, the path
/// and query kept (or `/`). Fails with `InvalidUri` exactly when the
/// rewritten host is no valid authority.
pub fn make_https(host: &str, path_and_query: Option<&str>, ports: &RedirectPorts) -> (r: Result<
    String,
    RedirectError,
>)
    requires
        ports.wf(),
    ensures
        r is Ok <==> authority_accepts(https_host(host@, *ports)),
        match r {
            Ok(u) => u@ == https_target(
                https_host(host@, *ports),
                match path_and_query {
                    Some(p) => Some(p@),
                    None => None,
                },
            ),
            Err(e) => e is InvalidUri,
        },
{
    let authority = replace_text(host, ports.http.as_str(), ports.https.as_str());
    match parse_authority(authority.as_str()) {
        Ok(()) => Ok(redirect_target(authority.as_str(), path_and_query)),
        Err(e) => Err(RedirectError::InvalidUri(e)),
    }
}

} // verus!
