use http::header::{HeaderMap, HeaderValue};
use sentiric_traffic_cache::cache::{CacheManager, FileProbe};
use sentiric_traffic_cache::model::{Action, Rule, RuleCondition};
use sentiric_traffic_cache::certs::CertificateAuthority;
use sentiric_traffic_cache::proxy::{
    begin, cached_reply, content_length, is_benign_disconnect, is_handshake_failure, proxy_service,
    serve_bypass, serve_hit, serve_hit_as, serve_http, serve_upstream, serve_upstream_as,
    target_url, tunnel_domain, Begun, Reply, RequestHead, Route, UpstreamHead,
};
use sentiric_traffic_cache::rules::RuleEngine;

fn head(
    method: &str,
    scheme: Option<&str>,
    authority: Option<&str>,
    path_and_query: Option<&str>,
    host: Option<&'static str>,
) -> RequestHead {
    let mut headers = HeaderMap::new();
    if let Some(h) = host {
        headers.insert("host", HeaderValue::from_static(h));
    }
    RequestHead {
        method: method.to_string(),
        scheme: scheme.map(|s| s.to_string()),
        authority: authority.map(|s| s.to_string()),
        path_and_query: path_and_query.map(|s| s.to_string()),
        headers,
    }
}

fn upstream(status: u16, fields: &[(&'static str, &'static str)]) -> UpstreamHead {
    let mut headers = HeaderMap::new();
    for (name, value) in fields {
        headers.append(*name, HeaderValue::from_static(value));
    }
    UpstreamHead { status, headers }
}

fn synthetic(reply: &Reply) -> (u16, String) {
    match reply {
        Reply::Synthetic { status, body } => (*status, body.clone()),
        other => panic!("expected a synthetic reply, got {:?}", other),
    }
}

#[test]
fn connect_with_target_opens_a_tunnel() {
    match proxy_service("CONNECT", Some("secure.example.com:443".to_string())) {
        Route::Tunnel { host } => assert_eq!(host, "secure.example.com:443"),
        other => panic!("expected a tunnel, got {:?}", other),
    }
}

#[test]
fn connect_without_target_is_a_bad_request() {
    match proxy_service("CONNECT", None) {
        Route::Refuse(reply) => assert_eq!(
            synthetic(&reply),
            (400, "CONNECT must be to a socket address".to_string())
        ),
        other => panic!("expected a refusal, got {:?}", other),
    }
}

#[test]
fn other_methods_go_through_the_pipeline() {
    assert!(matches!(proxy_service("GET", Some("example.com".to_string())), Route::Plain));
    assert!(matches!(proxy_service("POST", None), Route::Plain));
    assert!(matches!(proxy_service("connect", Some("example.com:443".to_string())), Route::Plain));
}

#[test]
fn tunnel_domain_is_the_target_without_port() {
    assert_eq!(tunnel_domain("secure.example.com:443"), "secure.example.com");
    assert_eq!(tunnel_domain("secure.example.com"), "secure.example.com");
    assert_eq!(tunnel_domain(":443"), "");
    assert_eq!(tunnel_domain(""), "");
    assert_eq!(tunnel_domain("a:b:c"), "a");
}

#[test]
fn absolute_request_target_is_its_own_url() {
    let h = head("GET", Some("http"), Some("example.com:8080"), Some("/a.txt?x=1"), Some("other.org"));
    assert_eq!(target_url(&h, &None), "http://example.com:8080/a.txt?x=1");
}

#[test]
fn relative_request_target_takes_the_host_field() {
    let h = head("GET", None, None, Some("/a.txt"), Some("example.com"));
    assert_eq!(target_url(&h, &None), "http://example.com/a.txt");
    let h = head("GET", None, Some("ignored.example"), Some("/a.txt"), Some("example.com"));
    assert_eq!(target_url(&h, &None), "http://example.com/a.txt");
}

#[test]
fn request_without_host_field_has_an_empty_host() {
    let h = head("GET", None, None, Some("/a.txt"), None);
    assert_eq!(target_url(&h, &None), "http:///a.txt");
}

#[test]
fn missing_path_is_the_root() {
    let h = head("GET", Some("http"), Some("example.com"), None, None);
    assert_eq!(target_url(&h, &None), "http://example.com/");
    let h = head("GET", Some("http"), Some("example.com"), Some(""), None);
    assert_eq!(target_url(&h, &None), "http://example.com/");
    let h = head("GET", Some("http"), Some("example.com"), Some("?q=1"), None);
    assert_eq!(target_url(&h, &None), "http://example.com/?q=1");
}

#[test]
fn tunnelled_request_is_https_to_the_tunnel_target() {
    let h = head("GET", None, None, Some("/"), Some("elsewhere.example"));
    let tunnel = Some("secure.example.com:443".to_string());
    assert_eq!(target_url(&h, &tunnel), "https://secure.example.com:443/");
    let h = head("GET", Some("http"), Some("other.org"), Some("/x?y"), None);
    assert_eq!(target_url(&h, &tunnel), "https://secure.example.com:443/x?y");
}

#[test]
fn blocked_request_is_answered_with_403() {
    match begin(Action::Block, "http://ads.example.com/pixel.gif".to_string()) {
        Begun::Answer(reply) => assert_eq!(
            synthetic(&reply),
            (403, "Blocked by Sentiric Traffic Cache rule.".to_string())
        ),
        other => panic!("expected an answer, got {:?}", other),
    }
}

#[test]
fn bypassing_request_is_forwarded() {
    match begin(Action::BypassCache, "http://example.com/live".to_string()) {
        Begun::Bypass { url } => assert_eq!(url, "http://example.com/live"),
        other => panic!("expected a bypass, got {:?}", other),
    }
}

#[test]
fn allowed_request_is_looked_up_under_its_url() {
    match begin(Action::Allow, "http://example.com/a.txt".to_string()) {
        Begun::Lookup { url } => assert_eq!(url, "http://example.com/a.txt"),
        other => panic!("expected a lookup, got {:?}", other),
    }
}

#[test]
fn block_rule_answers_403_and_leaves_the_cache_alone() {
    let rules = RuleEngine::new(vec![Rule {
        name: "ads".to_string(),
        condition: RuleCondition::Domain("ads.example.com".to_string()),
        action: Action::Block,
    }]);
    let cache = CacheManager::new("/c");
    let h = head("GET", None, None, Some("/pixel.gif"), Some("ads.example.com"));
    match serve_http(&rules, &h, &None) {
        Begun::Answer(reply) => assert_eq!(synthetic(&reply).0, 403),
        other => panic!("expected an answer, got {:?}", other),
    }
    let stats = cache.get_stats();
    assert_eq!(stats.hits, 0);
    assert_eq!(stats.misses, 0);
    assert_eq!(stats.total_requests, 0);
}

#[test]
fn first_request_misses_and_the_second_hits() {
    let rules = RuleEngine::new(Vec::new());
    let mut cache = CacheManager::new("/c");
    let h = head("GET", None, None, Some("/a.txt"), Some("example.com"));

    let url = match serve_http(&rules, &h, &None) {
        Begun::Lookup { url } => url,
        other => panic!("expected a lookup, got {:?}", other),
    };
    assert_eq!(url, "http://example.com/a.txt");
    let probe = FileProbe { exists: false, size: None, readable: false };
    assert_eq!(cache.get(&url, probe), None);
    let reply = upstream(200, &[("content-length", "5"), ("content-type", "text/plain")]);
    let (first, flow) = serve_upstream(&cache, "GET", &url, Some(&reply));
    let plan = match first {
        Reply::UpstreamStored { plan } => plan,
        other => panic!("expected a stored reply, got {:?}", other),
    };
    assert!(!flow.unwrap().is_hit);

    let again = match serve_http(&rules, &h, &None) {
        Begun::Lookup { url } => url,
        other => panic!("expected a lookup, got {:?}", other),
    };
    let probe = FileProbe { exists: true, size: Some(5), readable: true };
    let path = cache.get(&again, probe).unwrap();
    assert_eq!(path, plan.body_path);
    let recorded = cache.get_headers(Some(plan.metadata));
    let (second, flow) = serve_hit("GET", &again, path, recorded);
    assert!(matches!(second, Reply::Cached { .. }));
    assert!(flow.is_hit);
    let stats = cache.get_stats();
    assert_eq!(stats.hits, 1);
    assert_eq!(stats.misses, 1);
}

#[test]
fn cached_reply_replays_recorded_fields() {
    let recorded = Some(("gzip".to_string(), "text/html; charset=utf-8".to_string()));
    match cached_reply("/c/f".to_string(), recorded) {
        Reply::Cached { path, fields } => {
            assert_eq!(path, "/c/f");
            assert_eq!(
                fields,
                vec![
                    ("content-encoding".to_string(), "gzip".to_string()),
                    ("content-type".to_string(), "text/html; charset=utf-8".to_string()),
                    ("vary".to_string(), "accept-encoding".to_string()),
                ]
            );
        }
        other => panic!("expected a cached reply, got {:?}", other),
    }
}

#[test]
fn cached_reply_always_varies_on_accept_encoding() {
    let vary = vec![("vary".to_string(), "accept-encoding".to_string())];
    match cached_reply("p".to_string(), None) {
        Reply::Cached { fields, .. } => assert_eq!(fields, vary),
        other => panic!("expected a cached reply, got {:?}", other),
    }
    match cached_reply("p".to_string(), Some((String::new(), String::new()))) {
        Reply::Cached { fields, .. } => assert_eq!(fields, vary),
        other => panic!("expected a cached reply, got {:?}", other),
    }
}

#[test]
fn cached_reply_leaves_out_what_no_field_can_hold() {
    let recorded = Some(("gz\nip".to_string(), "text/plain".to_string()));
    match cached_reply("p".to_string(), recorded) {
        Reply::Cached { fields, .. } => assert_eq!(
            fields,
            vec![
                ("content-type".to_string(), "text/plain".to_string()),
                ("vary".to_string(), "accept-encoding".to_string()),
            ]
        ),
        other => panic!("expected a cached reply, got {:?}", other),
    }
}

#[test]
fn hit_is_recorded_with_status_200_and_no_size() {
    let (_, flow) = serve_hit_as("id-1".to_string(), "HEAD", "http://example.com/", "p".to_string(), None);
    assert_eq!(flow.id, "id-1");
    assert_eq!(flow.method, "HEAD");
    assert_eq!(flow.uri, "http://example.com/");
    assert_eq!(flow.status_code, 200);
    assert_eq!(flow.response_size_bytes, 0);
    assert!(flow.is_hit);
}

#[test]
fn fresh_flow_ids_are_36_characters_and_differ() {
    let (_, a) = serve_hit("GET", "u", "p".to_string(), None);
    let (_, b) = serve_hit("GET", "u", "p".to_string(), None);
    assert_eq!(a.id.chars().count(), 36);
    assert_eq!(b.id.chars().count(), 36);
    assert_ne!(a.id, b.id);
}

#[test]
fn upstream_failure_is_a_bad_gateway() {
    let cache = CacheManager::new("/c");
    let (reply, flow) = serve_upstream(&cache, "GET", "http://example.com/", None);
    assert_eq!(synthetic(&reply), (502, "Upstream request failed".to_string()));
    assert!(flow.is_none());
}

#[test]
fn upstream_reply_is_stored_under_the_url() {
    let cache = CacheManager::new("/c");
    let reply = upstream(
        404,
        &[("content-length", "1234"), ("content-encoding", "br"), ("content-type", "text/css")],
    );
    let (out, flow) =
        serve_upstream_as("id-7".to_string(), &cache, "POST", "http://example.com/a.txt", Some(&reply));
    match out {
        Reply::UpstreamStored { plan } => {
            assert_eq!(plan.body_path, "/c/c5eb1fcbe1a90c69c4aa74b059a77c9f");
            assert_eq!(plan.meta_path, "/c/c5eb1fcbe1a90c69c4aa74b059a77c9f.meta");
            assert_eq!(plan.metadata.key, "http://example.com/a.txt");
            assert_eq!(plan.metadata.content_encoding, Some("br".to_string()));
            assert_eq!(plan.metadata.content_type, Some("text/css".to_string()));
        }
        other => panic!("expected a stored reply, got {:?}", other),
    }
    let flow = flow.unwrap();
    assert_eq!(flow.id, "id-7");
    assert_eq!(flow.method, "POST");
    assert_eq!(flow.uri, "http://example.com/a.txt");
    assert_eq!(flow.status_code, 404);
    assert_eq!(flow.response_size_bytes, 1234);
    assert!(!flow.is_hit);
}

#[test]
fn upstream_reply_without_fields_records_none() {
    let cache = CacheManager::new("/c");
    let reply = upstream(200, &[]);
    let (out, flow) = serve_upstream(&cache, "GET", "http://example.com/a.txt", Some(&reply));
    match out {
        Reply::UpstreamStored { plan } => {
            assert_eq!(plan.metadata.content_encoding, None);
            assert_eq!(plan.metadata.content_type, None);
        }
        other => panic!("expected a stored reply, got {:?}", other),
    }
    assert_eq!(flow.unwrap().response_size_bytes, 0);
}

#[test]
fn announced_size_is_zero_unless_a_number_is_given() {
    assert_eq!(content_length(&upstream(200, &[("content-length", "0")]).headers), 0);
    assert_eq!(content_length(&upstream(200, &[("content-length", "42")]).headers), 42);
    assert_eq!(content_length(&upstream(200, &[("content-length", "+42")]).headers), 42);
    assert_eq!(content_length(&upstream(200, &[("content-length", "42 ")]).headers), 0);
    assert_eq!(content_length(&upstream(200, &[("content-length", "-1")]).headers), 0);
    assert_eq!(content_length(&upstream(200, &[("content-length", "")]).headers), 0);
    assert_eq!(
        content_length(&upstream(200, &[("content-length", "18446744073709551615")]).headers),
        u64::MAX
    );
    assert_eq!(
        content_length(&upstream(200, &[("content-length", "18446744073709551616")]).headers),
        0
    );
    assert_eq!(content_length(&upstream(200, &[("content-length", "7"), ("content-length", "9")]).headers), 7);
    assert_eq!(content_length(&upstream(200, &[]).headers), 0);
}

#[test]
fn field_value_outside_visible_ascii_reads_as_absent() {
    let mut headers = HeaderMap::new();
    headers.insert("content-type", HeaderValue::from_bytes(b"text/\xffplain").unwrap());
    headers.insert("host", HeaderValue::from_bytes(b"ex\xe4mple.com").unwrap());
    let cache = CacheManager::new("/c");
    let reply = UpstreamHead { status: 200, headers };
    let (out, _) = serve_upstream(&cache, "GET", "u", Some(&reply));
    match out {
        Reply::UpstreamStored { plan } => assert_eq!(plan.metadata.content_type, None),
        other => panic!("expected a stored reply, got {:?}", other),
    }
    let mut headers = HeaderMap::new();
    headers.insert("host", HeaderValue::from_bytes(b"ex\xe4mple.com").unwrap());
    let h = RequestHead {
        method: "GET".to_string(),
        scheme: None,
        authority: None,
        path_and_query: Some("/".to_string()),
        headers,
    };
    assert_eq!(target_url(&h, &None), "http:///");
}

#[test]
fn bypass_passes_the_reply_through_or_answers_502() {
    assert!(matches!(serve_bypass(true), Reply::Upstream));
    assert_eq!(synthetic(&serve_bypass(false)), (502, "Upstream request failed".to_string()));
}

#[test]
fn disconnects_are_benign() {
    assert!(is_benign_disconnect("connection reset by peer"));
    assert!(is_benign_disconnect("error reading: unexpected end of file"));
    assert!(!is_benign_disconnect("Connection Reset"));
    assert!(!is_benign_disconnect("broken pipe"));
    assert!(!is_benign_disconnect(""));
    assert!(is_handshake_failure("TLS handshake failed: bad certificate"));
    assert!(!is_handshake_failure("Error serving HTTPS connection"));
}

#[test]
fn connect_then_inner_get_is_served_under_the_tunnel_target() {
    let host = match proxy_service("CONNECT", Some("secure.example.com:443".to_string())) {
        Route::Tunnel { host } => host,
        other => panic!("expected a tunnel, got {:?}", other),
    };
    let domain = tunnel_domain(&host);
    assert_eq!(domain, "secure.example.com");
    let (mut ca, _) = CertificateAuthority::new(None).unwrap();
    ca.get_server_config(&domain).unwrap();
    assert_eq!(ca.leaf(&domain).unwrap().domain, "secure.example.com");

    let inner = head("GET", None, None, Some("/"), Some("secure.example.com"));
    let rules = RuleEngine::new(Vec::new());
    match serve_http(&rules, &inner, &Some(host)) {
        Begun::Lookup { url } => assert_eq!(url, "https://secure.example.com:443/"),
        other => panic!("expected a lookup, got {:?}", other),
    }
}
