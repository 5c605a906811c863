//! Decisions of the HTTP reverse proxy handler.
use vstd::prelude::*;
use vstd::string::StringSliceAdditionalSpecFns;

verus! {

/// What the handler does with a request.
#[derive(Debug, Clone, PartialEq, Eq)]
pub enum ProxyPlan {
    /// Answer with a bad-gateway page carrying this message; the backend is
    /// not contacted.
    BackendDown { message: String },
    /// Send the request on to this URL.
    Forward { url: String },
}

/// The message of the page shown while the backend is unhealthy.
pub open spec fn backend_down_text(backend: Seq<char>) -> Seq<char> {
    "Health check failed for "@ + backend + ", service is down"@
}

/// The URL a request is forwarded to: the backend in plain HTTP, then the
/// request's path and query verbatim (`/` where it has none).
pub open spec fn forward_url(backend: Seq<char>, path_and_query: Option<Seq<char>>) -> Seq<char> {
    "http://"@ + backend + match path_and_query {
        Some(p) => p,
        None => "/"@,
    }
}

/// The text a bad-gateway page carries while the backend is unhealthy.
pub fn backend_down_message(backend: &str) -> (r: String)
    ensures
        r@ == backend_down_text(backend@),
{
    let mut r = String::from_str("Health check failed for ");
    r.append(backend);
    r.append(", service is down");
    r
}

/// The backend URL for a request path and query.
pub fn backend_url(backend: &str, path_and_query: Option<&str>) -> (r: String)
    ensures
        r@ == forward_url(
            backend@,
            match path_and_query {
                Some(p) => Some(p@),
                None => None,
            },
        ),
{
    let mut r = String::from_str("http://");
    r.append(backend);
    match path_and_query {
        Some(p) => r.append(p),
        None => r.append("/"),
    }
    r
}

/// Decides a request from the health flag: while unhealthy the backend-down
/// page, never a forward; while healthy a forward to the backend.
pub fn plan_request(healthy: bool, backend: &str, path_and_query: Option<&str>) -> (r: ProxyPlan)
    ensures
        match r {
            ProxyPlan::BackendDown { message } => !healthy && message@ == backend_down_text(
                backend@,
            ),
            ProxyPlan::Forward { url } => healthy && url@ == forward_url(
                backend@,
                match path_and_query {
                    Some(p) => Some(p@),
                    None => None,
                },
            ),
        },
{
    if !healthy {
        ProxyPlan::BackendDown { message: backend_down_message(backend) }
    } else {
        ProxyPlan::Forward { url: backend_url(backend, path_and_query) }
    }
}

/// The status and headers of a response.
#[derive(Debug, Clone, PartialEq, Eq)]
pub struct ResponseHead {
    pub status: u16,
    /// Header names and raw values, in order.
    pub headers: Vec<(String, Vec<u8>)>,
}

/// The header that asks browsers to upgrade insecure subresource requests.
pub open spec fn csp_header() -> (Seq<char>, Seq<u8>) {
    ("Content-Security-Policy"@, "upgrade-insecure-requests".spec_bytes())
}

/// The head of the response to a proxied request: the backend's status and
/// headers unchanged, followed by the CSP header when `http_support` is on.
pub fn response_head(status: u16, backend_headers: Vec<(String, Vec<u8>)>, http_support: bool) -> (r:
    ResponseHead)
    ensures
        r.status == status,
        r.headers.deep_view() == if http_support {
            backend_headers.deep_view().push(csp_header())
        } else {
            backend_headers.deep_view()
        },
{
    let mut headers = backend_headers;
    if http_support {
        let ghost before = headers@;
        let value = "upgrade-insecure-requests".as_bytes_vec();
        headers.push((String::from_str("Content-Security-Policy"), value));
        proof {
            reveal_strlit("Content-Security-Policy");
            assert(headers@ == before.push(headers@.last()));
            assert(headers@.last().1.deep_view() =~= "upgrade-insecure-requests".spec_bytes());
            assert(headers@.last().deep_view() == csp_header());
            assert(headers.deep_view() =~= backend_headers.deep_view().push(csp_header()));
        }
    }
    ResponseHead { status, headers }
}

} // verus!
