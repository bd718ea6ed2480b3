//! The proxy engine's decisions: how a connection's first request is routed,
//! which URL a request is for, and what the request pipeline does at each of
//! its steps. Accepting connections, the TLS handshake, the cache probe and
//! the upstream call are the caller's part; it reports their outcomes here.

use crate::cache::{body_path, sidecar_path, CacheManager, MetadataView, StorePlan};
use crate::downloader::lemma_known_names;
use crate::headers::{field_text, header_fields, header_text, is_field_text, is_text};
use crate::model::{Action, FlowEntry, FlowView};
use crate::rules::{decision, url_domain, RuleEngine};
use crate::store::{
    after_chunks, concat_all, disk_after_store, disk_lookup, fresh_store, lemma_whole_body_is_copied,
    store_step, StoreEventView,
};
use crate::text::{
    contains, from_chars, occurs_in, optional_text, parse_number, parsed_number, push_char, same_text,
    text_or_empty, to_chars,
};
use http::header::{HeaderMap, HeaderValue};
use vstd::prelude::*;
use vstd::string::StringExecFns;

verus! {

/// What of a request the pipeline reads.
pub struct RequestHead {
    pub method: String,
    pub scheme: Option<String>,
    pub authority: Option<String>,
    pub path_and_query: Option<String>,
    pub headers: HeaderMap<HeaderValue>,
}

/// What of an upstream reply the pipeline reads.
pub struct UpstreamHead {
    pub status: u16,
    pub headers: HeaderMap<HeaderValue>,
}

/// A reply to the client.
#[derive(Debug)]
pub enum Reply {
    /// A reply made up by the proxy itself.
    Synthetic { status: u16, body: String },
    /// Status 200 with the body streamed from the cache file at `path` and
    /// with `fields` set on it.
    Cached { path: String, fields: Vec<(String, String)> },
    /// The upstream's reply as it came.
    Upstream,
    /// The upstream's reply, its body copied to the cache on the way as
    /// `plan` says.
    UpstreamStored { plan: StorePlan },
}

/// The view of a header field given as name and value.
pub open spec fn field_views(fields: Seq<(String, String)>) -> Seq<(Seq<char>, Seq<char>)> {
    Seq::new(fields.len(), |i: int| (fields[i].0@, fields[i].1@))
}

/// How the first request of a connection is routed.
#[derive(Debug)]
pub enum Route {
    /// Open a tunnel to `host` and terminate TLS on it.
    Tunnel { host: String },
    /// Answer with this reply.
    Refuse(Reply),
    /// Run the request through the pipeline.
    Plain,
}

/// The text of a synthetic reply to a blocked request.
pub open spec fn blocked_text() -> Seq<char> {
    "Blocked by Sentiric Traffic Cache rule."@
}

/// The text of a synthetic reply after an upstream failure.
pub open spec fn upstream_failed_text() -> Seq<char> {
    "Upstream request failed"@
}

/// The text of a synthetic reply to a tunnel request without a target.
pub open spec fn bad_connect_text() -> Seq<char> {
    "CONNECT must be to a socket address"@
}

/// Whether a reply is the synthetic one with this status and text.
pub open spec fn is_synthetic(reply: Reply, status: u16, text: Seq<char>) -> bool {
    reply matches Reply::Synthetic { status: s, body } && s == status && body@ == text
}

fn synthetic(status: u16, text: &str) -> (reply: Reply)
    ensures
        is_synthetic(reply, status, text@),
{
    Reply::Synthetic { status, body: text.to_owned() }
}

/// How a first request with this method and target is routed: a `CONNECT`
/// with a target opens a tunnel to it, a `CONNECT` without one is answered
/// with status 400, and every other request goes through the pipeline.
pub open spec fn is_route_for(route: Route, method: Seq<char>, authority: Option<String>) -> bool {
    if method != "CONNECT"@ {
        route is Plain
    } else {
        match authority {
            Some(target) => route matches Route::Tunnel { host } && host == target,
            None => route matches Route::Refuse(reply) && is_synthetic(reply, 400, bad_connect_text()),
        }
    }
}

/// Routes the first request of a connection.
pub fn proxy_service(method: &str, authority: Option<String>) -> (route: Route)
    ensures
        is_route_for(route, method@, authority),
{
    if same_text(method, "CONNECT") {
        match authority {
            Some(host) => Route::Tunnel { host },
            None => Route::Refuse(synthetic(400, "CONNECT must be to a socket address")),
        }
    } else {
        Route::Plain
    }
}

/// Whether the message of a connection error tells of a client that simply
/// went away: a reset connection or an input that ended early. Such errors
/// are common and are not worth a warning.
pub open spec fn tells_of_disconnect(message: Seq<char>) -> bool {
    occurs_in(message, "connection reset"@) || occurs_in(message, "unexpected end of file"@)
}

/// Whether a connection error is not worth a warning.
pub fn is_benign_disconnect(message: &str) -> (benign: bool)
    ensures
        benign == tells_of_disconnect(message@),
{
    contains(message, "connection reset") || contains(message, "unexpected end of file")
}

/// Whether the error of a tunnel is a failed TLS handshake, which probing
/// clients cause all the time and which is no fault of the proxy.
pub fn is_handshake_failure(message: &str) -> (failed: bool)
    ensures
        failed == occurs_in(message@, "TLS handshake failed"@),
{
    contains(message, "TLS handshake failed")
}

/// Whether `domain` is the part of `host` before its first colon, or all of
/// it where it has none.
pub open spec fn is_domain_of(domain: Seq<char>, host: Seq<char>) -> bool {
    &&& domain.len() <= host.len()
    &&& domain == host.take(domain.len() as int)
    &&& !domain.contains(':')
    &&& (domain.len() == host.len() || host[domain.len() as int] == ':')
}

/// The name to issue a tunnel's certificate for: the tunnel's target without
/// its port.
pub fn tunnel_domain(host: &str) -> (domain: String)
    ensures
        is_domain_of(domain@, host@),
{
    let chars = to_chars(host);
    let mut end: usize = 0;
    while end < chars.len() && chars[end] != ':'
        invariant
            end <= chars.len(),
            forall|j: int| 0 <= j < end ==> chars@[j] != ':',
        decreases chars.len() - end,
    {
        end += 1;
    }
    let mut prefix: Vec<char> = Vec::new();
    let mut i: usize = 0;
    while i < end
        invariant
            i <= end <= chars.len(),
            prefix@ == chars@.take(i as int),
        decreases end - i,
    {
        prefix.push(chars[i]);
        i += 1;
    }
    from_chars(&prefix)
}

/// The path and query of a request target as they stand in a URL: a lone
/// slash where there is none, a slash in front where the target begins with
/// the query.
pub open spec fn request_path(path_and_query: Option<Seq<char>>) -> Seq<char> {
    match path_and_query {
        None => seq!['/'],
        Some(p) => if p.len() == 0 {
            seq!['/']
        } else if p[0] == '?' {
            seq!['/'] + p
        } else {
            p
        },
    }
}

/// The absolute URL that a request is for.
///
/// Inside a tunnel it is `https`, the tunnel's target and the request's path.
/// Outside, a request that names scheme and authority is for exactly that;
/// any other is for `http`, the host named in its `host` field, and its path.
pub open spec fn absolute_url(
    tunnel: Option<Seq<char>>,
    scheme: Option<Seq<char>>,
    authority: Option<Seq<char>>,
    path_and_query: Option<Seq<char>>,
    host_text: Option<Seq<char>>,
) -> Seq<char> {
    match tunnel {
        Some(target) => "https://"@ + target + request_path(path_and_query),
        None => if scheme is Some && authority is Some {
            scheme.unwrap() + "://"@ + authority.unwrap() + request_path(path_and_query)
        } else {
            "http://"@ + text_or_empty(host_text) + request_path(path_and_query)
        },
    }
}

/// The absolute URL that `head` is for, given the tunnel it came through.
pub open spec fn url_of(head: RequestHead, tunnel: Option<Seq<char>>) -> Seq<char> {
    absolute_url(
        tunnel,
        optional_text(head.scheme),
        optional_text(head.authority),
        optional_text(head.path_and_query),
        field_text(header_fields(head.headers), "host"@),
    )
}

fn append_path(url: &mut String, path_and_query: &Option<String>)
    ensures
        final(url)@ == old(url)@ + request_path(optional_text(*path_and_query)),
{
    match path_and_query {
        None => {
            push_char(url, '/');
        },
        Some(p) => {
            let chars = to_chars(p.as_str());
            if chars.len() == 0 || chars[0] == '?' {
                push_char(url, '/');
            }
            url.append(p.as_str());
        },
    }
}

/// The absolute URL that a request is for.
pub fn target_url(head: &RequestHead, tunnel: &Option<String>) -> (url: String)
    ensures
        url@ == url_of(*head, optional_text(*tunnel)),
{
    proof {
        lemma_known_names();
    }
    let mut url: String;
    match tunnel {
        Some(target) => {
            url = "https://".to_owned();
            url.append(target.as_str());
        },
        None => {
            match (&head.scheme, &head.authority) {
                (Some(scheme), Some(authority)) => {
                    url = scheme.clone();
                    url.append("://");
                    url.append(authority.as_str());
                },
                _ => {
                    url = "http://".to_owned();
                    match header_text(&head.headers, "host") {
                        Some(host) => {
                            url.append(host.as_str());
                        },
                        None => {},
                    }
                },
            }
        },
    }
    append_path(&mut url, &head.path_and_query);
    url
}

/// What the pipeline does first with a request.
#[derive(Debug)]
pub enum Begun {
    /// Answer at once; neither the cache nor the network is touched.
    Answer(Reply),
    /// Forward upstream and pass the reply through; the cache is not touched.
    Bypass { url: String },
    /// Look `url` up in the cache.
    Lookup { url: String },
}

/// Whether `begun` is what `action` prescribes for `url`: a blocked request
/// is answered with status 403, one that bypasses the cache is forwarded, and
/// an allowed one is looked up in the cache under its URL.
pub open spec fn follows(begun: Begun, action: Action, url: Seq<char>) -> bool {
    match action {
        Action::Block => begun matches Begun::Answer(reply) && is_synthetic(reply, 403, blocked_text()),
        Action::BypassCache => begun matches Begun::Bypass { url: u } && u@ == url,
        Action::Allow => begun matches Begun::Lookup { url: u } && u@ == url,
    }
}

/// What the pipeline does first with a request for `url`, given the rule
/// engine's decision.
pub fn begin(action: Action, url: String) -> (begun: Begun)
    ensures
        follows(begun, action, url@),
{
    match action {
        Action::Block => Begun::Answer(synthetic(403, "Blocked by Sentiric Traffic Cache rule.")),
        Action::BypassCache => Begun::Bypass { url },
        Action::Allow => Begun::Lookup { url },
    }
}

/// The first step of the pipeline: the request's absolute URL is worked out,
/// the rules are evaluated on it, and the decision is followed.
pub fn serve_http(rules: &RuleEngine, head: &RequestHead, tunnel: &Option<String>) -> (begun: Begun)
    ensures
        follows(
            begun,
            decision(rules@, url_domain(url_of(*head, optional_text(*tunnel))), url_of(*head, optional_text(*tunnel))),
            url_of(*head, optional_text(*tunnel)),
        ),
{
    let url = target_url(head, tunnel);
    let action = rules.match_action(url.as_str());
    begin(action, url)
}

/// The fields set on a reply from the cache: the recorded content encoding
/// and content type, each only where it is not empty and can stand in a
/// field, and `vary: accept-encoding` in any case.
pub open spec fn cached_fields(recorded: Option<(Seq<char>, Seq<char>)>) -> Seq<(Seq<char>, Seq<char>)> {
    let encoding = match recorded {
        Some(pair) => if pair.0.len() > 0 && is_field_text(pair.0) {
            seq![("content-encoding"@, pair.0)]
        } else {
            Seq::empty()
        },
        None => Seq::empty(),
    };
    let kind = match recorded {
        Some(pair) => if pair.1.len() > 0 && is_field_text(pair.1) {
            seq![("content-type"@, pair.1)]
        } else {
            Seq::empty()
        },
        None => Seq::empty(),
    };
    encoding + kind + seq![("vary"@, "accept-encoding"@)]
}

/// The view of a recorded pair of content encoding and content type.
pub open spec fn recorded_view(recorded: Option<(String, String)>) -> Option<(Seq<char>, Seq<char>)> {
    match recorded {
        Some(pair) => Some((pair.0@, pair.1@)),
        None => None,
    }
}

/// The record of a request answered from the cache.
pub open spec fn hit_flow_view(id: Seq<char>, method: Seq<char>, url: Seq<char>) -> FlowView {
    FlowView { id, method, uri: url, status_code: 200, response_size_bytes: 0, is_hit: true }
}

/// The record of a request answered by the upstream.
pub open spec fn miss_flow_view(
    id: Seq<char>,
    method: Seq<char>,
    url: Seq<char>,
    status: u16,
    size: u64,
) -> FlowView {
    FlowView { id, method, uri: url, status_code: status, response_size_bytes: size, is_hit: false }
}

/// `Uuid::new_v4` and its `to_string`: a random identifier, written as 36
/// characters.
#[verifier::external_body]
pub(crate) fn fresh_flow_id() -> (id: String)
    ensures
        id@.len() == 36,
{
    uuid::Uuid::new_v4().to_string()
}

/// The reply to a request found in the cache.
pub fn cached_reply(path: String, recorded: Option<(String, String)>) -> (reply: Reply)
    ensures
        reply matches Reply::Cached { path: p, fields } && p == path && field_views(fields@)
            == cached_fields(recorded_view(recorded)),
{
    let mut fields: Vec<(String, String)> = Vec::new();
    match recorded {
        Some(pair) => {
            let (encoding, kind) = pair;
            if encoding.as_str().unicode_len() > 0 && is_text(encoding.as_str()) {
                fields.push(("content-encoding".to_owned(), encoding));
            }
            if kind.as_str().unicode_len() > 0 && is_text(kind.as_str()) {
                fields.push(("content-type".to_owned(), kind));
            }
        },
        None => {},
    }
    fields.push(("vary".to_owned(), "accept-encoding".to_owned()));
    assert(field_views(fields@) =~= cached_fields(recorded_view(recorded)));
    Reply::Cached { path, fields }
}

/// The pipeline's step after a cache hit, for a record with the identifier `id`.
pub fn serve_hit_as(id: String, method: &str, url: &str, path: String, recorded: Option<(String, String)>) -> (out: (
    Reply,
    FlowEntry,
))
    ensures
        out.0 matches Reply::Cached { path: p, fields } && p == path && field_views(fields@)
            == cached_fields(recorded_view(recorded)),
        out.1@ == hit_flow_view(id@, method@, url@),
{
    let reply = cached_reply(path, recorded);
    let flow = FlowEntry {
        id,
        method: method.to_owned(),
        uri: url.to_owned(),
        status_code: 200,
        response_size_bytes: 0,
        is_hit: true,
    };
    (reply, flow)
}

/// The pipeline's step after a cache hit: the body is served from the file
/// at `path` with the recorded fields, and the hit is recorded under a fresh
/// identifier.
pub fn serve_hit(method: &str, url: &str, path: String, recorded: Option<(String, String)>) -> (out: (
    Reply,
    FlowEntry,
))
    ensures
        out.0 matches Reply::Cached { path: p, fields } && p == path && field_views(fields@)
            == cached_fields(recorded_view(recorded)),
        out.1@ == hit_flow_view(out.1@.id, method@, url@),
        out.1@.id.len() == 36,
{
    serve_hit_as(fresh_flow_id(), method, url, path, recorded)
}

/// The size that an upstream reply announces: the number in its
/// `content-length` field, or zero where there is none to read.
pub open spec fn announced_size(fields: Map<Seq<char>, Seq<Seq<u8>>>) -> u64 {
    match field_text(fields, "content-length"@) {
        Some(text) => match parsed_number(text) {
            Some(n) => n,
            None => 0,
        },
        None => 0,
    }
}

/// The size that an upstream reply announces.
pub fn content_length(headers: &HeaderMap<HeaderValue>) -> (size: u64)
    ensures
        size == announced_size(header_fields(*headers)),
{
    proof {
        lemma_known_names();
    }
    match header_text(headers, "content-length") {
        Some(text) => match parse_number(text.as_str()) {
            Some(n) => n,
            None => 0,
        },
        None => 0,
    }
}

/// The plan to store an upstream reply under `url` in the cache at `dir`:
/// the key's two files, and beside the body the key with the reply's content
/// encoding and content type.
pub open spec fn is_store_plan(plan: StorePlan, dir: Seq<char>, url: Seq<char>, fields: Map<Seq<char>, Seq<Seq<u8>>>) -> bool {
    &&& plan.body_path@ == body_path(dir, url)
    &&& plan.meta_path@ == sidecar_path(dir, url)
    &&& plan.metadata@ == (MetadataView {
        key: url,
        content_encoding: field_text(fields, "content-encoding"@),
        content_type: field_text(fields, "content-type"@),
    })
}

/// The pipeline's step after the upstream's answer to a cache miss, for a
/// record with the identifier `id`.
pub fn serve_upstream_as(
    id: String,
    cache: &CacheManager,
    method: &str,
    url: &str,
    outcome: Option<&UpstreamHead>,
) -> (out: (Reply, Option<FlowEntry>))
    ensures
        outcome is None ==> is_synthetic(out.0, 502, upstream_failed_text()) && out.1 is None,
        outcome matches Some(head) ==> {
            &&& out.0 matches Reply::UpstreamStored { plan } && is_store_plan(
                plan,
                cache.directory(),
                url@,
                header_fields(head.headers),
            )
            &&& out.1 matches Some(flow) && flow@ == miss_flow_view(
                id@,
                method@,
                url@,
                head.status,
                announced_size(header_fields(head.headers)),
            )
        },
{
    match outcome {
        None => (synthetic(502, "Upstream request failed"), None),
        Some(head) => {
            proof {
                lemma_known_names();
            }
            let size = content_length(&head.headers);
            let encoding = header_text(&head.headers, "content-encoding");
            let kind = header_text(&head.headers, "content-type");
            let plan = cache.put_stream(url.to_owned(), encoding, kind);
            let flow = FlowEntry {
                id,
                method: method.to_owned(),
                uri: url.to_owned(),
                status_code: head.status,
                response_size_bytes: size,
                is_hit: false,
            };
            (Reply::UpstreamStored { plan }, Some(flow))
        },
    }
}

/// The pipeline's step after the upstream's answer to a cache miss. A failed
/// call is answered with status 502. A reply is passed on with its body
/// copied to the cache under the request's URL, and is recorded under a fresh
/// identifier with its status and announced size.
pub fn serve_upstream(cache: &CacheManager, method: &str, url: &str, outcome: Option<&UpstreamHead>) -> (out: (
    Reply,
    Option<FlowEntry>,
))
    ensures
        outcome is None ==> is_synthetic(out.0, 502, upstream_failed_text()) && out.1 is None,
        outcome matches Some(head) ==> {
            &&& out.0 matches Reply::UpstreamStored { plan } && is_store_plan(
                plan,
                cache.directory(),
                url@,
                header_fields(head.headers),
            )
            &&& out.1 matches Some(flow) && flow@.id.len() == 36 && flow@ == miss_flow_view(
                flow@.id,
                method@,
                url@,
                head.status,
                announced_size(header_fields(head.headers)),
            )
        },
{
    serve_upstream_as(fresh_flow_id(), cache, method, url, outcome)
}

/// A miss is stored as it is served: where an upstream body arrives whole
/// and every chunk reaches the file, the client has received exactly the
/// body, in order; the file that a later lookup of the same URL reads holds
/// exactly the body; the source's end completes the store; and beside the
/// file stand the URL and the reply's content encoding and content type.
pub proof fn lemma_miss_is_stored_as_served(
    plan: StorePlan,
    dir: Seq<char>,
    url: Seq<char>,
    fields: Map<Seq<char>, Seq<Seq<u8>>>,
    chunks: Seq<Seq<u8>>,
    disk: Map<Seq<char>, Seq<u8>>,
)
    requires
        is_store_plan(plan, dir, url, fields),
        concat_all(chunks).len() <= u64::MAX,
    ensures
        ({
            let s = after_chunks(fresh_store(), chunks);
            &&& s.forwarded == concat_all(chunks)
            &&& s.written == concat_all(chunks)
            &&& store_step(s, StoreEventView::SourceEnded).1 is Finish
            &&& disk_after_store(disk, dir, url, s)[plan.body_path@] == concat_all(chunks)
            &&& disk_lookup(disk_after_store(disk, dir, url, s), dir, url) == Some(concat_all(chunks))
            &&& plan.metadata@.key == url
            &&& plan.metadata@.content_encoding == field_text(fields, "content-encoding"@)
            &&& plan.metadata@.content_type == field_text(fields, "content-type"@)
        }),
{
    lemma_whole_body_is_copied(chunks, crate::cache::zero_counters());
}

/// The pipeline's step after the upstream's answer to a request that
/// bypasses the cache: the reply as it came, or status 502 after a failure.
pub fn serve_bypass(upstream_replied: bool) -> (reply: Reply)
    ensures
        upstream_replied ==> reply is Upstream,
        !upstream_replied ==> is_synthetic(reply, 502, upstream_failed_text()),
{
    if upstream_replied {
        Reply::Upstream
    } else {
        synthetic(502, "Upstream request failed")
    }
}

} // verus!
