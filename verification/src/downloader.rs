//! Preparing a request for the upstream server: hop-by-hop fields are
//! stripped, an `accept-encoding` is supplied where the client sent none, the
//! `host` field is rewritten from the target, and the protocol version is
//! pinned to HTTP/1.1. Sending the prepared request is the caller's part.

use crate::headers::{
    has_header, header_fields, is_field_name, is_field_text, is_text, remove_header,
    roomy_names, set_header, text_bytes,
};
use vstd::set_lib::lemma_len_subset;
use crate::text::{decimal, decimal_text, optional_text, push_char};
use http::header::{HeaderMap, HeaderValue};
use vstd::prelude::*;
use vstd::string::StringExecFns;

verus! {

/// A protocol version.
#[derive(Clone, Copy, Debug, PartialEq, Eq, Structural)]
pub enum HttpVersion {
    Http09,
    Http10,
    Http11,
    Http2,
    Http3,
}

/// What of a request matters for forwarding: the target's scheme, host and
/// port, the protocol version and the header fields.
pub struct OutboundRequest {
    pub scheme: Option<String>,
    pub host: Option<String>,
    pub port: Option<u16>,
    pub version: HttpVersion,
    pub headers: HeaderMap<HeaderValue>,
}

/// Why a request cannot be forwarded.
#[derive(Clone, Copy, Debug, PartialEq, Eq, Structural)]
pub enum ForwardError {
    /// The target names no host.
    MissingHost,
    /// The target's host cannot be written into a header field.
    InvalidHost,
    /// The header map refused another field.
    TooManyHeaders,
}

/// Whether a result is the refusal `e`.
pub open spec fn refused_with(r: Result<OutboundRequest, ForwardError>, e: ForwardError) -> bool {
    match r {
        Ok(_) => false,
        Err(x) => x == e,
    }
}

/// Whether a field is meaningful for one connection only and must not be
/// passed on.
pub open spec fn is_hop_by_hop(name: Seq<char>) -> bool {
    ||| name == "connection"@
    ||| name == "keep-alive"@
    ||| name == "proxy-authenticate"@
    ||| name == "proxy-authorization"@
    ||| name == "te"@
    ||| name == "trailers"@
    ||| name == "transfer-encoding"@
    ||| name == "upgrade"@
    ||| name == "proxy-connection"@
}

/// The fields that remain once the hop-by-hop ones are taken out.
pub open spec fn without_hop_by_hop(fields: Map<Seq<char>, Seq<Seq<u8>>>) -> Map<Seq<char>, Seq<Seq<u8>>> {
    fields.remove_keys(Set::new(|name: Seq<char>| is_hop_by_hop(name)))
}

/// The port that a scheme implies: 443 for `https`, 80 for everything else.
pub open spec fn default_port(scheme: Option<Seq<char>>) -> u16 {
    if scheme == Some("https"@) {
        443
    } else {
        80
    }
}

/// The `host` field for a target: the host alone where the port is absent
/// or is the one that the scheme implies, otherwise the host, a colon and
/// the port in decimal.
pub open spec fn host_field(scheme: Option<Seq<char>>, host: Seq<char>, port: Option<u16>) -> Seq<char> {
    match port {
        Some(p) => if p == default_port(scheme) {
            host
        } else {
            host.push(':') + decimal_text(p as nat)
        },
        None => host,
    }
}

/// The encodings asked for on behalf of a client that named none.
pub open spec fn default_encodings() -> Seq<char> {
    "gzip, deflate, br"@
}

/// The fields of the forwarded request: the hop-by-hop fields are gone, an
/// `accept-encoding` is there in any case, `host` holds `host_text` alone,
/// and every other field is as the client sent it.
pub open spec fn forwarded_fields(fields: Map<Seq<char>, Seq<Seq<u8>>>, host_text: Seq<char>) -> Map<
    Seq<char>,
    Seq<Seq<u8>>,
> {
    let stripped = without_hop_by_hop(fields);
    let encoded = if stripped.contains_key("accept-encoding"@) {
        stripped
    } else {
        stripped.insert("accept-encoding"@, seq![text_bytes(default_encodings())])
    };
    encoded.insert("host"@, seq![text_bytes(host_text)])
}

/// The names that the proxy itself reads and writes are well-formed field names.
pub proof fn lemma_known_names()
    ensures
        is_field_name("connection"@),
        is_field_name("keep-alive"@),
        is_field_name("proxy-authenticate"@),
        is_field_name("proxy-authorization"@),
        is_field_name("te"@),
        is_field_name("trailers"@),
        is_field_name("transfer-encoding"@),
        is_field_name("upgrade"@),
        is_field_name("proxy-connection"@),
        is_field_name("accept-encoding"@),
        is_field_name("host"@),
        is_field_name("content-encoding"@),
        is_field_name("content-type"@),
        is_field_name("content-length"@),
        is_field_name("vary"@),
        is_field_text(default_encodings()),
{
    reveal_strlit("connection");
    reveal_strlit("keep-alive");
    reveal_strlit("proxy-authenticate");
    reveal_strlit("proxy-authorization");
    reveal_strlit("te");
    reveal_strlit("trailers");
    reveal_strlit("transfer-encoding");
    reveal_strlit("upgrade");
    reveal_strlit("proxy-connection");
    reveal_strlit("accept-encoding");
    reveal_strlit("host");
    reveal_strlit("content-encoding");
    reveal_strlit("content-type");
    reveal_strlit("content-length");
    reveal_strlit("vary");
    reveal_strlit("gzip, deflate, br");
}

/// What forwarding does to the fields, name by name: no hop-by-hop field
/// remains, `host` holds the target alone, `accept-encoding` is the client's
/// own or else the default, and every other field is exactly as it was.
pub proof fn lemma_forwarded_fields(fields: Map<Seq<char>, Seq<Seq<u8>>>, host_text: Seq<char>, name: Seq<char>)
    ensures
        is_hop_by_hop(name) ==> !forwarded_fields(fields, host_text).contains_key(name),
        forwarded_fields(fields, host_text).contains_key("host"@),
        forwarded_fields(fields, host_text)["host"@] == seq![text_bytes(host_text)],
        forwarded_fields(fields, host_text).contains_key("accept-encoding"@),
        forwarded_fields(fields, host_text)["accept-encoding"@] == (if fields.contains_key(
            "accept-encoding"@,
        ) {
            fields["accept-encoding"@]
        } else {
            seq![text_bytes(default_encodings())]
        }),
        !is_hop_by_hop(name) && name != "host"@ && name != "accept-encoding"@ ==> {
            &&& forwarded_fields(fields, host_text).contains_key(name) == fields.contains_key(name)
            &&& fields.contains_key(name) ==> forwarded_fields(fields, host_text)[name] == fields[name]
        },
{
    reveal_strlit("connection");
    reveal_strlit("keep-alive");
    reveal_strlit("proxy-authenticate");
    reveal_strlit("proxy-authorization");
    reveal_strlit("te");
    reveal_strlit("trailers");
    reveal_strlit("transfer-encoding");
    reveal_strlit("upgrade");
    reveal_strlit("proxy-connection");
    reveal_strlit("accept-encoding");
    reveal_strlit("host");
    assert("connection"@.len() == 10);
    assert("keep-alive"@.len() == 10);
    assert("proxy-authenticate"@.len() == 18);
    assert("proxy-authorization"@.len() == 19);
    assert("te"@.len() == 2);
    assert("trailers"@.len() == 8);
    assert("transfer-encoding"@.len() == 17);
    assert("upgrade"@.len() == 7);
    assert("proxy-connection"@.len() == 16);
    assert("accept-encoding"@.len() == 15);
    assert("host"@.len() == 4);
    assert(!is_hop_by_hop("host"@));
    assert(!is_hop_by_hop("accept-encoding"@));
    assert("host"@ != "accept-encoding"@);
}

/// Whether a header map is sure to take the two fields that forwarding may
/// add: it holds fewer names than one below [`roomy_names`].
pub open spec fn has_room_to_forward(fields: Map<Seq<char>, Seq<Seq<u8>>>) -> bool {
    fields.dom().finite() && fields.dom().len() + 1 < roomy_names()
}

/// Taking the hop-by-hop fields out leaves no more names than there were.
pub proof fn lemma_stripping_shrinks(fields: Map<Seq<char>, Seq<Seq<u8>>>)
    requires
        fields.dom().finite(),
    ensures
        without_hop_by_hop(fields).dom().finite(),
        without_hop_by_hop(fields).dom().len() <= fields.dom().len(),
{
    assert(without_hop_by_hop(fields).dom().subset_of(fields.dom()));
    lemma_len_subset(without_hop_by_hop(fields).dom(), fields.dom());
}

/// Whether a scheme is `https`.
fn is_https(scheme: &Option<String>) -> (r: bool)
    ensures
        r == (optional_text(*scheme) == Some("https"@)),
{
    match scheme {
        Some(s) => {
            let https = "https".to_owned();
            *s == https
        },
        None => false,
    }
}

/// The `host` field for a target.
pub fn host_header(scheme: &Option<String>, host: &str, port: Option<u16>) -> (text: String)
    ensures
        text@ == host_field(optional_text(*scheme), host@, port),
{
    let mut text = host.to_owned();
    let implied: u16 = if is_https(scheme) {
        443
    } else {
        80
    };
    match port {
        Some(p) => {
            if p != implied {
                push_char(&mut text, ':');
                let digits = decimal(p as u64);
                text.append(digits.as_str());
            }
        },
        None => {},
    }
    text
}

/// Takes the hop-by-hop fields out of a header map.
pub fn strip_hop_by_hop(headers: &mut HeaderMap<HeaderValue>)
    ensures
        header_fields(*final(headers)) == without_hop_by_hop(header_fields(*old(headers))),
{
    proof {
        lemma_known_names();
    }
    remove_header(headers, "connection");
    remove_header(headers, "keep-alive");
    remove_header(headers, "proxy-authenticate");
    remove_header(headers, "proxy-authorization");
    remove_header(headers, "te");
    remove_header(headers, "trailers");
    remove_header(headers, "transfer-encoding");
    remove_header(headers, "upgrade");
    remove_header(headers, "proxy-connection");
    assert(header_fields(*headers) =~= without_hop_by_hop(header_fields(*old(headers))));
}

/// Prepares a request for the upstream server.
///
/// A request without a host is refused with `MissingHost`, one whose `host`
/// field would hold anything but visible ASCII with `InvalidHost`; both
/// exactly then. Otherwise the result is the request with its version set to
/// HTTP/1.1 and its fields as [`forwarded_fields`] says, unless the header
/// map refused a field, which gives `TooManyHeaders` and cannot happen while
/// the map holds fewer than 6553 names.
pub fn forward_request(req: OutboundRequest) -> (r: Result<OutboundRequest, ForwardError>)
    ensures
        (req.host is Some && is_field_text(
            host_field(optional_text(req.scheme), req.host.unwrap()@, req.port),
        ) && has_room_to_forward(header_fields(req.headers))) ==> r is Ok,
        req.host is None <==> refused_with(r, ForwardError::MissingHost),
        (req.host is Some && !is_field_text(
            host_field(optional_text(req.scheme), req.host.unwrap()@, req.port),
        )) <==> refused_with(r, ForwardError::InvalidHost),
        r matches Ok(out) ==> {
            &&& out.version == HttpVersion::Http11
            &&& out.scheme == req.scheme
            &&& out.host == req.host
            &&& out.port == req.port
            &&& header_fields(out.headers) == forwarded_fields(
                header_fields(req.headers),
                host_field(optional_text(req.scheme), req.host.unwrap()@, req.port),
            )
        },
{
    let OutboundRequest { scheme, host, port, version: _, headers } = req;
    let mut headers = headers;
    let host_text = match &host {
        Some(h) => host_header(&scheme, h.as_str(), port),
        None => {
            return Err(ForwardError::MissingHost);
        },
    };
    if !is_text(host_text.as_str()) {
        return Err(ForwardError::InvalidHost);
    }
    proof {
        lemma_known_names();
    }
    proof {
        if header_fields(headers).dom().finite() {
            lemma_stripping_shrinks(header_fields(headers));
        }
    }
    strip_hop_by_hop(&mut headers);
    if !has_header(&headers, "accept-encoding") {
        if !set_header(&mut headers, "accept-encoding", "gzip, deflate, br") {
            return Err(ForwardError::TooManyHeaders);
        }
    }
    if !set_header(&mut headers, "host", host_text.as_str()) {
        return Err(ForwardError::TooManyHeaders);
    }
    Ok(OutboundRequest { scheme, host, port, version: HttpVersion::Http11, headers })
}

} // verus!
