//! Reverse HTTP proxy: what is sent to the backend for an inbound request,
//! and what the client gets back for each outcome of that call.
use vstd::prelude::*;
use vstd::string::*;
use vstd::utf8::encode_utf8;

use crate::backend::BackendTarget;
use crate::context::{opt_str_view, opt_view};
use crate::text::join2;

verus! {

/// One header line: a name and its raw value.
#[derive(Clone, Debug, PartialEq, Eq)]
pub struct Header {
    pub name: String,
    pub value: Vec<u8>,
}

impl View for Header {
    type V = (Seq<char>, Seq<u8>);

    open spec fn view(&self) -> (Seq<char>, Seq<u8>) {
        (self.name@, self.value@)
    }
}

/// The views of a list of headers, in order.
pub open spec fn headers_view(hs: Seq<Header>) -> Seq<(Seq<char>, Seq<u8>)> {
    hs.map_values(|h: Header| h@)
}

/// An inbound HTTP request, as the proxy sees it.
#[derive(Clone, Debug, PartialEq, Eq)]
pub struct ProxiedRequest {
    pub method: String,
    pub path: String,
    pub query: Option<String>,
    pub headers: Vec<Header>,
    pub body: Vec<u8>,
    pub app_context: Option<String>,
}

/// The request that goes to the backend.
#[derive(Clone, Debug, PartialEq, Eq)]
pub struct OutboundRequest {
    pub method: String,
    pub url: String,
    pub headers: Vec<Header>,
    pub body: Option<Vec<u8>>,
}

/// A response handed back to the client.
#[derive(Clone, Debug, PartialEq, Eq)]
pub struct ProxiedResponse {
    pub status: u16,
    pub headers: Vec<Header>,
    pub body: Vec<u8>,
}

/// How the call to the backend ended.
#[derive(Clone, Debug, PartialEq, Eq)]
pub enum BackendReply {
    /// The backend answered and its body was read whole.
    Responded(ProxiedResponse),
    /// The request could not be sent (connect, TLS or send failed).
    Unreachable(String),
    /// The backend answered but its body could not be read.
    BodyUnreadable(String),
}

/// Status of a response when the backend failed.
pub const STATUS_BAD_GATEWAY: u16 = 502;

/// Status of a response when this server itself failed.
pub const STATUS_INTERNAL_ERROR: u16 = 500;

/// Whether `c` is `lower` in either ASCII case.
pub open spec fn is_letter_ci(c: char, lower: char, upper: char) -> bool {
    c == lower || c == upper
}

/// A header name that names the `host` header, in any letter case.
pub open spec fn is_host_name(n: Seq<char>) -> bool {
    &&& n.len() == 4
    &&& is_letter_ci(n[0], 'h', 'H')
    &&& is_letter_ci(n[1], 'o', 'O')
    &&& is_letter_ci(n[2], 's', 'S')
    &&& is_letter_ci(n[3], 't', 'T')
}

/// The headers with every `host` header taken out, the others kept in order.
pub open spec fn without_host(hs: Seq<(Seq<char>, Seq<u8>)>) -> Seq<(Seq<char>, Seq<u8>)>
    decreases hs.len(),
{
    if hs.len() == 0 {
        seq![]
    } else {
        let rest = without_host(hs.drop_last());
        if is_host_name(hs.last().0) {
            rest
        } else {
            rest.push(hs.last())
        }
    }
}

/// The name of the header that carries the application context.
pub open spec fn context_header_name() -> Seq<char> {
    "x-app-context"@
}

/// The headers sent to the backend: the inbound ones but `host`, then the
/// application context when there is one.
pub open spec fn outbound_headers(
    hs: Seq<(Seq<char>, Seq<u8>)>,
    context: Option<Seq<char>>,
) -> Seq<(Seq<char>, Seq<u8>)> {
    match context {
        Some(c) => without_host(hs).push((context_header_name(), encode_utf8(c))),
        None => without_host(hs),
    }
}

/// The backend URL of a request: base URL, path, then `?` and the query if
/// the request had one. Nothing is decoded or re-encoded.
pub open spec fn target_url(base: Seq<char>, path: Seq<char>, query: Option<Seq<char>>) -> Seq<char> {
    match query {
        Some(q) => base + path + "?"@ + q,
        None => base + path,
    }
}

/// The body sent to the backend: none when the inbound body is empty.
pub open spec fn outbound_body(body: Seq<u8>) -> Option<Seq<u8>> {
    if body.len() == 0 {
        None
    } else {
        Some(body)
    }
}

/// The view of an optional body.
pub open spec fn opt_bytes_view(b: Option<Vec<u8>>) -> Option<Seq<u8>> {
    match b {
        Some(v) => Some(v@),
        None => None,
    }
}

/// Whether `name` is the `host` header name, in any letter case.
pub fn is_host_header(name: &str) -> (r: bool)
    ensures
        r == is_host_name(name@),
{
    if name.unicode_len() != 4 {
        return false;
    }
    let c0 = name.get_char(0);
    let c1 = name.get_char(1);
    let c2 = name.get_char(2);
    let c3 = name.get_char(3);
    (c0 == 'h' || c0 == 'H') && (c1 == 'o' || c1 == 'O') && (c2 == 's' || c2 == 'S') && (c3 == 't'
        || c3 == 'T')
}

/// The URL a request is forwarded to.
pub fn build_target_url(base: &str, path: &str, query: Option<&str>) -> (r: String)
    ensures
        r@ == target_url(base@, path@, opt_str_view(query)),
{
    let mut r = join2(base, path);
    match query {
        Some(q) => {
            r.append("?");
            r.append(q);
        },
        None => {},
    }
    r
}

/// Takes every `host` header out of `headers`, keeping the others in order,
/// then adds the application context header when a context is given.
pub fn forward_headers(headers: Vec<Header>, context: Option<String>) -> (r: Vec<Header>)
    ensures
        headers_view(r@) == outbound_headers(headers_view(headers@), opt_view(context)),
{
    let mut out: Vec<Header> = Vec::new();
    let mut rest = headers;
    let ghost all = headers@;
    let mut i: usize = 0;
    let n = rest.len();
    // Headers are taken from the back, so walk a reversed copy.
    let mut reversed: Vec<Header> = Vec::new();
    while rest.len() > 0
        invariant
            all == headers@,
            n == all.len(),
            rest@ == all.subrange(0, rest@.len() as int),
            reversed@.len() == all.len() - rest@.len(),
            forall|k: int|
                0 <= k < reversed@.len() ==> #[trigger] reversed@[k] == all[all.len() - 1 - k],
        decreases rest.len(),
    {
        let h = rest.pop().unwrap();
        reversed.push(h);
    }
    while i < n
        invariant
            all == headers@,
            n == all.len(),
            i <= n,
            reversed@.len() == n - i,
            forall|k: int|
                0 <= k < reversed@.len() ==> #[trigger] reversed@[k] == all[n - 1 - k],
            headers_view(out@) == without_host(headers_view(all.subrange(0, i as int))),
        decreases n - i,
    {
        let h = reversed.pop().unwrap();
        assert(h == all[i as int]);
        assert(all.subrange(0, i + 1).drop_last() =~= all.subrange(0, i as int));
        assert(headers_view(all.subrange(0, i + 1)).drop_last() =~= headers_view(
            all.subrange(0, i as int),
        ));
        if !is_host_header(h.name.as_str()) {
            out.push(h);
            assert(headers_view(out@) =~= without_host(headers_view(all.subrange(0, i as int))).push(
                all[i as int]@,
            ));
        }
        i = i + 1;
    }
    assert(all.subrange(0, n as int) =~= all);
    match context {
        Some(c) => {
            let name = String::from_str("x-app-context");
            let value = c.as_str().as_bytes_vec();
            out.push(Header { name, value });
            assert(headers_view(out@) =~= without_host(headers_view(all)).push(
                (context_header_name(), encode_utf8(c@)),
            ));
        },
        None => {},
    }
    out
}

/// The request to send to the backend for an inbound request.
pub fn plan_request(target: &BackendTarget, req: ProxiedRequest) -> (r: OutboundRequest)
    ensures
        r.method@ == req.method@,
        r.url@ == target_url(target.base_url@, req.path@, opt_view(req.query)),
        headers_view(r.headers@) == outbound_headers(
            headers_view(req.headers@),
            opt_view(req.app_context),
        ),
        opt_bytes_view(r.body) == outbound_body(req.body@),
{
    let ProxiedRequest { method, path, query, headers, body, app_context } = req;
    let url = match &query {
        Some(q) => build_target_url(target.base_url.as_str(), path.as_str(), Some(q.as_str())),
        None => build_target_url(target.base_url.as_str(), path.as_str(), None),
    };
    let headers = forward_headers(headers, app_context);
    let body = if body.len() == 0 {
        None
    } else {
        Some(body)
    };
    OutboundRequest { method, url, headers, body }
}

/// The bytes of a diagnostic text that ends with an error message.
pub open spec fn diagnostic_body(prefix: Seq<char>, message: Seq<char>) -> Seq<u8> {
    encode_utf8(prefix + message)
}

/// A plain response with no headers.
fn plain_response(status: u16, prefix: &str, message: &str) -> (r: ProxiedResponse)
    ensures
        r.status == status,
        r.headers@.len() == 0,
        r.body@ == diagnostic_body(prefix@, message@),
{
    let text = join2(prefix, message);
    let body = text.as_str().as_bytes_vec();
    ProxiedResponse { status, headers: Vec::new(), body }
}

/// The response for each way the backend call can end: the backend's own
/// response untouched, or 502 with a diagnostic text when the backend could
/// not be reached or its body could not be read.
pub fn respond(reply: BackendReply) -> (r: ProxiedResponse)
    ensures
        match reply {
            BackendReply::Responded(p) => r == p,
            BackendReply::Unreachable(e) => {
                &&& r.status == STATUS_BAD_GATEWAY
                &&& r.headers@.len() == 0
                &&& r.body@ == diagnostic_body("Proxy error: "@, e@)
            },
            BackendReply::BodyUnreadable(e) => {
                &&& r.status == STATUS_BAD_GATEWAY
                &&& r.headers@.len() == 0
                &&& r.body@ == diagnostic_body("Failed to read response: "@, e@)
            },
        },
{
    match reply {
        BackendReply::Responded(p) => p,
        BackendReply::Unreachable(e) => plain_response(
            STATUS_BAD_GATEWAY,
            "Proxy error: ",
            e.as_str(),
        ),
        BackendReply::BodyUnreadable(e) => plain_response(
            STATUS_BAD_GATEWAY,
            "Failed to read response: ",
            e.as_str(),
        ),
    }
}

/// The response when the inbound request body cannot be read: 500.
pub fn unreadable_request_response() -> (r: ProxiedResponse)
    ensures
        r.status == STATUS_INTERNAL_ERROR,
        r.headers@.len() == 0,
        r.body@ == diagnostic_body("Failed to read request body"@, ""@),
{
    plain_response(STATUS_INTERNAL_ERROR, "Failed to read request body", "")
}

/// The response used when a response cannot be built for the client: 500.
pub fn fallback_response() -> (r: ProxiedResponse)
    ensures
        r.status == STATUS_INTERNAL_ERROR,
        r.headers@.len() == 0,
        r.body@ == diagnostic_body("Failed to build response"@, ""@),
{
    plain_response(STATUS_INTERNAL_ERROR, "Failed to build response", "")
}

/// Every inbound header but `host` is forwarded, unchanged and in order, and
/// no other header is added but the application context when there is one.
pub proof fn lemma_forwarded_headers_exact(
    hs: Seq<(Seq<char>, Seq<u8>)>,
    context: Option<Seq<char>>,
)
    ensures
        without_host(hs) == hs.filter(|h: (Seq<char>, Seq<u8>)| !is_host_name(h.0)),
        outbound_headers(hs, context) == match context {
            Some(c) => hs.filter(|h: (Seq<char>, Seq<u8>)| !is_host_name(h.0)).push(
                (context_header_name(), encode_utf8(c)),
            ),
            None => hs.filter(|h: (Seq<char>, Seq<u8>)| !is_host_name(h.0)),
        },
    decreases hs.len(),
{
    reveal(Seq::filter);
    if hs.len() > 0 {
        lemma_forwarded_headers_exact(hs.drop_last(), context);
    }
}

/// The body goes to the backend exactly as it came in; only an empty body
/// is left off.
pub proof fn lemma_forwarded_body_exact(body: Seq<u8>)
    ensures
        match outbound_body(body) {
            Some(b) => b == body && body.len() > 0,
            None => body.len() == 0,
        },
{
}

} // verus!
