//! End-to-end tests of the dispatcher against the in-process store.

use qui_vive::CustomIdFormat;
use qui_vive::MemoryStore;
use qui_vive::Method;
use qui_vive::QuiViveConfig;
use qui_vive::QuiViveService;
use qui_vive::Request;
use qui_vive::Response;

fn cfg() -> QuiViveConfig {
    let mut c = QuiViveConfig::new();
    c.external_url = "http://x".to_string();
    c
}

fn svc(c: QuiViveConfig) -> QuiViveService<MemoryStore> {
    QuiViveService { cfg: c, cache: MemoryStore::new() }
}

fn req(method: Method, path: &str) -> Request {
    Request {
        method,
        path: path.to_string(),
        dst_url: None,
        id_param: None,
        expiration: None,
        body: Vec::new(),
    }
}

fn req_body(method: Method, path: &str, body: &[u8]) -> Request {
    let mut r = req(method, path);
    r.body = body.to_vec();
    r
}

/// The trailing identifier of a returned creation link.
fn link_id(resp: &Response) -> String {
    let text = resp.body.trim_end_matches('\n');
    text.rsplit('/').next().unwrap().to_string()
}

#[test]
fn key_round_trip() {
    let mut s = svc(cfg());
    let created = s.call(req_body(Method::Post, "/key", b"P"), 100);
    assert_eq!(created.status, 200);
    assert!(created.text_plain && created.nosniff && created.noindex);
    let id = link_id(&created);
    assert_eq!(created.body, format!("http://x/key/{}\n", id));
    let fetched = s.call(req(Method::Get, &format!("/key/{}", id)), 101);
    assert_eq!(fetched.status, 200);
    assert_eq!(fetched.body, "P");
    assert!(fetched.text_plain && fetched.nosniff && fetched.noindex);
}

#[test]
fn url_round_trip() {
    let mut s = svc(cfg());
    let created = s.call(req_body(Method::Post, "/url", b"http://example.com"), 100);
    assert_eq!(created.status, 200);
    let id = link_id(&created);
    assert_eq!(created.body, format!("http://x/{}\n", id));
    let fetched = s.call(req(Method::Get, &format!("/url/{}", id)), 101);
    assert_eq!(fetched.status, 301);
    assert_eq!(fetched.location.as_deref(), Some("http://example.com"));
    assert_eq!(fetched.body, "");
}

#[test]
fn url_entry_has_empty_payload() {
    let mut s = svc(cfg());
    let created = s.call(req_body(Method::Post, "/url", b"http://example.com"), 100);
    let id = link_id(&created);
    let fetched = s.call(req(Method::Get, &format!("/key/{}", id)), 100);
    assert_eq!(fetched.status, 200);
    assert_eq!(fetched.body, "");
}

#[test]
fn delete_is_idempotent() {
    let mut s = svc(cfg());
    let gone = s.call(req(Method::Delete, "/key/never-stored"), 100);
    assert_eq!(gone.status, 200);

    let mut c = cfg();
    c.custom_id_format = CustomIdFormat::All;
    let mut s = svc(c);
    let created = s.call(req_body(Method::Post, "/key/mine", b"v"), 100);
    assert_eq!(created.status, 200);
    assert_eq!(s.call(req(Method::Delete, "/key/mine"), 100).status, 200);
    assert_eq!(s.call(req(Method::Get, "/key/mine"), 100).status, 404);
    assert_eq!(s.call(req(Method::Delete, "/key/mine"), 100).status, 200);
}

#[test]
fn ttl_zero_override_never_expires() {
    let mut s = svc(cfg());
    let mut r = req_body(Method::Post, "/key", b"keep");
    r.expiration = Some("0".to_string());
    let created = s.call(r, 100);
    assert_eq!(created.status, 200);
    let id = link_id(&created);
    let fetched = s.call(req(Method::Get, &format!("/key/{}", id)), 4_000_000_000);
    assert_eq!(fetched.status, 200);
    assert_eq!(fetched.body, "keep");
}

#[test]
fn ttl_boundary() {
    let mut s = svc(cfg());
    let mut r = req_body(Method::Post, "/key", b"brief");
    r.expiration = Some("5".to_string());
    let created = s.call(r, 100);
    assert_eq!(created.status, 200);
    let id = link_id(&created);
    assert_eq!(s.call(req(Method::Get, &format!("/key/{}", id)), 104).status, 200);
    assert_eq!(s.call(req(Method::Get, &format!("/key/{}", id)), 105).status, 404);
    assert_eq!(s.call(req(Method::Get, &format!("/key/{}", id)), 106).status, 404);
}

#[test]
fn expiration_header_not_numeric_falls_back_to_default() {
    let mut c = cfg();
    c.default_expiration = Some(5);
    let mut s = svc(c);
    let mut r = req_body(Method::Post, "/key", b"v");
    r.expiration = Some("abc".to_string());
    let created = s.call(r, 100);
    assert_eq!(created.status, 200);
    let id = link_id(&created);
    assert_eq!(s.call(req(Method::Get, &format!("/key/{}", id)), 104).status, 200);
    assert_eq!(s.call(req(Method::Get, &format!("/key/{}", id)), 105).status, 404);
}

#[test]
fn custom_id_reject_all() {
    let mut c = cfg();
    c.custom_id_format = CustomIdFormat::RejectAll;
    let mut s = svc(c);
    assert_eq!(s.call(req_body(Method::Post, "/key/my-id", b"v"), 100).status, 400);
    assert_eq!(s.call(req(Method::Get, "/key/my-id"), 100).status, 404);
}

#[test]
fn custom_id_uuid_shape() {
    let mut c = cfg();
    c.custom_id_format = CustomIdFormat::Uuid;
    let mut s = svc(c);
    assert_eq!(s.call(req_body(Method::Post, "/key/not-a-uuid", b"v"), 100).status, 400);
    let ok = s.call(
        req_body(Method::Post, "/key/123e4567-e89b-12d3-a456-426614174000", b"v"),
        100,
    );
    assert_eq!(ok.status, 200);
    assert_eq!(
        s.call(req(Method::Get, "/key/123e4567-e89b-12d3-a456-426614174000"), 100).body,
        "v"
    );
}

#[test]
fn custom_id_accept_all() {
    let mut c = cfg();
    c.custom_id_format = CustomIdFormat::All;
    let mut s = svc(c);
    assert_eq!(s.call(req_body(Method::Post, "/key/any_shape-1", b"v"), 100).status, 200);
}

#[test]
fn custom_id_overwrites_previous_entry() {
    let mut s = svc(cfg());
    assert_eq!(s.call(req_body(Method::Post, "/key/twice", b"first"), 100).status, 200);
    assert_eq!(s.call(req_body(Method::Post, "/key/twice", b"second"), 100).status, 200);
    assert_eq!(s.call(req(Method::Get, "/key/twice"), 100).body, "second");
}

#[test]
fn oversized_body_rejected_and_not_stored() {
    let mut c = cfg();
    c.max_value_size = 4;
    let mut s = svc(c);
    let resp = s.call(req_body(Method::Post, "/key/big", b"12345"), 100);
    assert_eq!(resp.status, 413);
    assert_eq!(s.call(req(Method::Get, "/key/big"), 100).status, 404);
    let resp = s.call(req_body(Method::Post, "/key", b"12345"), 100);
    assert_eq!(resp.status, 413);
    let resp = s.call(req_body(Method::Post, "/url", b"12345"), 100);
    assert_eq!(resp.status, 413);
}

#[test]
fn body_must_be_utf8() {
    let mut s = svc(cfg());
    let resp = s.call(req_body(Method::Post, "/key", &[0xff, 0xfe]), 100);
    assert_eq!(resp.status, 400);
}

#[test]
fn generic_lookup_discriminator() {
    let mut s = svc(cfg());
    assert_eq!(s.call(req_body(Method::Post, "/key/plain", b"v"), 100).status, 200);
    assert_eq!(s.call(req(Method::Get, "/plain"), 100).status, 404);
    assert_eq!(s.call(req(Method::Get, "/key/plain"), 100).status, 200);

    let created = s.call(req_body(Method::Post, "/url", b"http://example.com"), 100);
    let id = link_id(&created);
    let via_generic = s.call(req(Method::Get, &format!("/{}", id)), 100);
    assert_eq!(via_generic.status, 301);
    assert_eq!(via_generic.location.as_deref(), Some("http://example.com"));
}

#[test]
fn health_probe_stores_fresh_timestamps() {
    let mut s = svc(cfg());
    assert_eq!(s.call(req(Method::Get, "/health"), 1000).status, 200);
    let first = s.call(req(Method::Get, "/key/health"), 1000);
    assert_eq!(first.status, 200);
    assert_eq!(first.body, "1000");
    assert_eq!(s.call(req(Method::Get, "/health"), 1001).status, 200);
    let second = s.call(req(Method::Get, "/key/health"), 1001);
    assert_eq!(second.status, 200);
    assert_eq!(second.body, "1001");
    assert_ne!(first.body, second.body);
}

#[test]
fn health_probe_fails_with_zero_default_expiration() {
    let mut c = cfg();
    c.default_expiration = Some(0);
    let mut s = svc(c);
    assert_eq!(s.call(req(Method::Get, "/health"), 1000).status, 500);
}

#[test]
fn inv_requires_destination_header() {
    let mut s = svc(cfg());
    assert_eq!(s.call(req_body(Method::Post, "/inv", b""), 100).status, 400);
}

#[test]
fn inv_rejects_unparseable_destination() {
    let mut s = svc(cfg());
    let mut r = req_body(Method::Post, "/inv", b"");
    r.dst_url = Some("not a url".to_string());
    assert_eq!(s.call(r, 100).status, 400);
}

#[test]
fn inv_appends_identifier_to_destination() {
    let mut s = svc(cfg());
    let mut r = req_body(Method::Post, "/inv", b"note");
    r.dst_url = Some("http://example.com".to_string());
    r.id_param = Some("ref".to_string());
    let created = s.call(r, 100);
    assert_eq!(created.status, 200);
    let id = link_id(&created);
    assert_eq!(created.body, format!("http://x/{}\n", id));

    let via_inv = s.call(req(Method::Get, &format!("/inv/{}", id)), 100);
    assert_eq!(via_inv.status, 301);
    assert_eq!(
        via_inv.location.as_deref(),
        Some(format!("http://example.com/?ref={}", id).as_str())
    );

    let via_generic = s.call(req(Method::Get, &format!("/{}", id)), 100);
    assert_eq!(via_generic.status, 301);
}

#[test]
fn inv_without_param_stores_normalized_destination() {
    let mut s = svc(cfg());
    let mut r = req_body(Method::Post, "/inv", b"");
    r.dst_url = Some("http://example.com".to_string());
    let created = s.call(r, 100);
    assert_eq!(created.status, 200);
    let id = link_id(&created);
    let via_inv = s.call(req(Method::Get, &format!("/inv/{}", id)), 100);
    assert_eq!(via_inv.status, 301);
    assert_eq!(via_inv.location.as_deref(), Some("http://example.com/"));
}

#[test]
fn unmatched_requests_are_not_found() {
    let mut s = svc(cfg());
    assert_eq!(s.call(req(Method::Get, "/no/such/route"), 100).status, 404);
    assert_eq!(s.call(req(Method::Post, "/health"), 100).status, 404);
    assert_eq!(s.call(req(Method::Other, "/key"), 100).status, 404);
    assert_eq!(s.call(req(Method::Get, "health"), 100).status, 404);
    assert_eq!(s.call(req(Method::Delete, "/url/x"), 100).status, 404);
    assert_eq!(s.call(req(Method::Get, "/missing"), 100).status, 404);
}

#[test]
fn missing_entries_are_not_found_on_every_fetch_path() {
    let mut s = svc(cfg());
    assert_eq!(s.call(req(Method::Get, "/key/absent"), 100).status, 404);
    assert_eq!(s.call(req(Method::Get, "/url/absent"), 100).status, 404);
    assert_eq!(s.call(req(Method::Get, "/inv/absent"), 100).status, 404);
    assert_eq!(s.call(req(Method::Get, "/absent"), 100).status, 404);
}

#[test]
fn empty_body_is_stored_verbatim() {
    let mut s = svc(cfg());
    let created = s.call(req_body(Method::Post, "/key", b""), 100);
    assert_eq!(created.status, 200);
    let id = link_id(&created);
    let fetched = s.call(req(Method::Get, &format!("/key/{}", id)), 100);
    assert_eq!(fetched.status, 200);
    assert_eq!(fetched.body, "");
}

#[test]
fn oversized_expiration_header_falls_back_to_default() {
    let mut c = cfg();
    c.default_expiration = None;
    let mut s = svc(c);
    let mut r = req_body(Method::Post, "/key", b"v");
    r.expiration = Some("4294967296".to_string());
    let created = s.call(r, 100);
    assert_eq!(created.status, 200);
    let id = link_id(&created);
    assert_eq!(s.call(req(Method::Get, &format!("/key/{}", id)), 4_000_000_000).status, 200);
}

#[test]
fn identifiers_may_mix_all_allowed_character_classes() {
    let mut s = svc(cfg());
    assert_eq!(s.call(req_body(Method::Post, "/key/a_B-9", b"v"), 100).status, 200);
    assert_eq!(s.call(req(Method::Get, "/key/a_B-9"), 100).body, "v");
}

#[test]
fn bare_key_path_is_a_generic_lookup() {
    let mut s = svc(cfg());
    assert_eq!(s.call(req_body(Method::Post, "/key/key", b"v"), 100).status, 200);
    // GET /key names the entry "key" through the bare-identifier pattern,
    // which hides key-only entries.
    assert_eq!(s.call(req(Method::Get, "/key"), 100).status, 404);
    assert_eq!(s.call(req(Method::Get, "/key/key"), 100).status, 200);
}
