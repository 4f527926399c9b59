//! The request dispatcher: classifies each request by method and path into
//! one of the service's operations, applies the per-operation validation and
//! expiration policy, drives the entry store, and produces the response.
//!
//! `call_spec` is the dispatcher's specification: a case analysis over the
//! operation table relating the store contents before and after the call to
//! the response, parameterized by the identifier chosen for the entry (the
//! generated one where the operation generates, ignored elsewhere).

use vstd::prelude::*;
use vstd::string::StringExecFns;
use vstd::string::StrSliceExecFns;
use vstd::utf8::valid_utf8;
use vstd::utf8::decode_utf8;
use rand::Rng;

use crate::config::CustomIdFormat;
use crate::config::QuiViveConfig;
use crate::store::EntryStore;
use crate::store::QuiViveEntry;
use crate::store::RecordModel;
use crate::store::deadline_of;
use crate::store::fresh_at;
use crate::store::lookup;
use crate::text::bytes_to_string;
use crate::text::build_link;
use crate::text::dec_of;
use crate::text::match_prefix_id;
use crate::text::opt_view;
use crate::text::parse_u32;
use crate::text::prefix_id_match;
use crate::text::spec_parse_u32;
use crate::text::str_eq;
use crate::text::u32_to_dec;

verus! {

/// The request methods the operation table distinguishes; anything else is
/// answered "not found".
#[derive(Clone, Copy, PartialEq, Eq, Structural, Debug)]
pub enum Method {
    Get,
    Post,
    Delete,
    Other,
}

/// An inbound request, reduced to what the dispatcher reads: the method and
/// path, the three recognized headers, and the collected body bytes.
pub struct Request {
    pub method: Method,
    pub path: String,
    /// The destination-URL header required by referral creation.
    pub dst_url: Option<String>,
    /// The header naming the query parameter the generated identifier is
    /// appended under.
    pub id_param: Option<String>,
    /// The per-request expiration override header, in seconds as text.
    pub expiration: Option<String>,
    pub body: Vec<u8>,
}

/// A wire-level response: status, optional text body, optional redirect
/// target, and the three response headers the service sets on textual
/// bodies.
pub struct Response {
    pub status: u16,
    pub body: String,
    /// Redirect target, present exactly on permanent redirects.
    pub location: Option<String>,
    /// `Content-Type: text/plain; charset=utf-8`.
    pub text_plain: bool,
    /// `X-Content-Type-Options: nosniff`.
    pub nosniff: bool,
    /// `X-Robots-Tag: noindex`.
    pub noindex: bool,
}

/// A bare status response, without body, redirect or extra headers.
pub open spec fn resp_status_only(r: Response, code: u16) -> bool {
    r.status == code && r.body@ == Seq::<char>::empty() && r.location is None && !r.text_plain
        && !r.nosniff && !r.noindex
}

/// A successful text response: the body with the indexing- and
/// sniffing-suppression headers.
pub open spec fn resp_ok_text(r: Response, body: Seq<char>) -> bool {
    r.status == 200 && r.body@ == body && r.location is None && r.text_plain && r.nosniff
        && r.noindex
}

/// A permanent redirect to the given target.
pub open spec fn resp_redirect(r: Response, loc: Seq<char>) -> bool {
    r.status == 301 && r.body@ == Seq::<char>::empty() && (r.location matches Some(l) && l@
        == loc) && !r.text_plain && !r.nosniff && !r.noindex
}

fn status_response(code: u16) -> (r: Response)
    ensures
        resp_status_only(r, code),
{
    Response {
        status: code,
        body: String::new(),
        location: Option::None,
        text_plain: false,
        nosniff: false,
        noindex: false,
    }
}

fn ok_text_response(body: String) -> (r: Response)
    ensures
        resp_ok_text(r, body@),
{
    Response {
        status: 200,
        body,
        location: Option::None,
        text_plain: true,
        nosniff: true,
        noindex: true,
    }
}

fn redirect_response(target: String) -> (r: Response)
    ensures
        resp_redirect(r, target@),
{
    Response {
        status: 301,
        body: String::new(),
        location: Some(target),
        text_plain: false,
        nosniff: false,
        noindex: false,
    }
}

/// The operation table: what a method and path pair designates.
pub enum Route {
    Health,
    KeyNew,
    KeyCustom { id: Seq<char> },
    KeyFetch { id: Seq<char> },
    KeyDelete { id: Seq<char> },
    UrlNew,
    UrlFetch { id: Seq<char> },
    InvNew,
    InvFetch { id: Seq<char> },
    AnyFetch { id: Seq<char> },
    Unknown,
}

/// Classification of a request line, in the operation table's order: the
/// health path is matched before the bare-identifier pattern, so "/health"
/// always designates the health probe.
pub open spec fn route_of(m: Method, path: Seq<char>) -> Route {
    if m is Get && path == "/health"@ {
        Route::Health
    } else if m is Get && prefix_id_match(path, "/key/"@) {
        Route::KeyFetch { id: path.skip("/key/"@.len() as int) }
    } else if m is Get && prefix_id_match(path, "/url/"@) {
        Route::UrlFetch { id: path.skip("/url/"@.len() as int) }
    } else if m is Get && prefix_id_match(path, "/inv/"@) {
        Route::InvFetch { id: path.skip("/inv/"@.len() as int) }
    } else if m is Get && prefix_id_match(path, "/"@) {
        Route::AnyFetch { id: path.skip("/"@.len() as int) }
    } else if m is Post && path == "/key"@ {
        Route::KeyNew
    } else if m is Post && prefix_id_match(path, "/key/"@) {
        Route::KeyCustom { id: path.skip("/key/"@.len() as int) }
    } else if m is Post && path == "/url"@ {
        Route::UrlNew
    } else if m is Post && path == "/inv"@ {
        Route::InvNew
    } else if m is Delete && prefix_id_match(path, "/key/"@) {
        Route::KeyDelete { id: path.skip("/key/"@.len() as int) }
    } else {
        Route::Unknown
    }
}

/// Executable counterpart of `Route`, carrying the extracted identifier.
pub enum Op {
    Health,
    KeyNew,
    KeyCustom { id: String },
    KeyFetch { id: String },
    KeyDelete { id: String },
    UrlNew,
    UrlFetch { id: String },
    InvNew,
    InvFetch { id: String },
    AnyFetch { id: String },
    Unknown,
}

impl View for Op {
    type V = Route;

    open spec fn view(&self) -> Route {
        match self {
            Op::Health => Route::Health,
            Op::KeyNew => Route::KeyNew,
            Op::KeyCustom { id } => Route::KeyCustom { id: id@ },
            Op::KeyFetch { id } => Route::KeyFetch { id: id@ },
            Op::KeyDelete { id } => Route::KeyDelete { id: id@ },
            Op::UrlNew => Route::UrlNew,
            Op::UrlFetch { id } => Route::UrlFetch { id: id@ },
            Op::InvNew => Route::InvNew,
            Op::InvFetch { id } => Route::InvFetch { id: id@ },
            Op::AnyFetch { id } => Route::AnyFetch { id: id@ },
            Op::Unknown => Route::Unknown,
        }
    }
}

/// Match a request line against the operation table.
pub fn classify(method: Method, path: &str) -> (r: Op)
    ensures
        r@ == route_of(method, path@),
{
    match method {
        Method::Get => {
            if str_eq(path, "/health") {
                return Op::Health;
            }
            if let Some(id) = match_prefix_id(path, "/key/") {
                return Op::KeyFetch { id };
            }
            if let Some(id) = match_prefix_id(path, "/url/") {
                return Op::UrlFetch { id };
            }
            if let Some(id) = match_prefix_id(path, "/inv/") {
                return Op::InvFetch { id };
            }
            if let Some(id) = match_prefix_id(path, "/") {
                return Op::AnyFetch { id };
            }
            Op::Unknown
        },
        Method::Post => {
            if str_eq(path, "/key") {
                return Op::KeyNew;
            }
            if let Some(id) = match_prefix_id(path, "/key/") {
                return Op::KeyCustom { id };
            }
            if str_eq(path, "/url") {
                return Op::UrlNew;
            }
            if str_eq(path, "/inv") {
                return Op::InvNew;
            }
            Op::Unknown
        },
        Method::Delete => {
            if let Some(id) = match_prefix_id(path, "/key/") {
                return Op::KeyDelete { id };
            }
            Op::Unknown
        },
        Method::Other => Op::Unknown,
    }
}

/// Relies on `rand::Rng::gen_range` (with `rand::thread_rng`): returns a
/// value within the given non-empty range.
#[verifier::external_body]
fn rand_index(n: usize) -> (r: usize)
    requires
        n > 0,
    ensures
        r < n,
{
    rand::thread_rng().gen_range(0..n)
}

/// Relies on `time::OffsetDateTime::now_utc` for the current Unix timestamp,
/// truncated to 32 bits; the result depends on the clock, so nothing is
/// promised of it.
#[verifier::external_body]
pub fn get_timestamp() -> u32 {
    time::OffsetDateTime::now_utc().unix_timestamp() as u32
}

/// Whether the text parses as a UUID; decided by the uuid crate, on the
/// characters alone.
pub uninterp spec fn uuid_parses(s: Seq<char>) -> bool;

/// Relies on `uuid::Uuid::parse_str`: acceptance depends on the characters
/// alone.
#[verifier::external_body]
fn is_uuid(s: &str) -> (r: bool)
    ensures
        r == uuid_parses(s@),
{
    uuid::Uuid::parse_str(s).is_ok()
}

/// What parsing a destination URL yields: its normalized serialization, or
/// nothing if the text is not a URL; decided by the url crate, on the
/// characters alone.
pub uninterp spec fn url_normalized(s: Seq<char>) -> Option<Seq<char>>;

/// A parsed URL's serialization with one more query pair appended; decided
/// by the url crate, on the three texts alone.
pub uninterp spec fn url_with_param(u: Seq<char>, key: Seq<char>, value: Seq<char>) -> Seq<char>;

/// Relies on `url::Url::parse` and `Url::as_str`: acceptance and the
/// normalized serialization depend on the characters alone, and a `Url`'s
/// serialization parses back to itself.
#[verifier::external_body]
fn parse_url(s: &str) -> (r: Option<String>)
    ensures
        r is Some <==> url_normalized(s@) is Some,
        r matches Some(u) ==> url_normalized(s@) == Some(u@),
        r matches Some(u) ==> url_normalized(u@) == Some(u@),
{
    match url::Url::parse(s) {
        Ok(u) => Some(u.as_str().to_owned()),
        Err(_) => None,
    }
}

/// Relies on `url::Url::query_pairs_mut` (after re-parsing an already
/// normalized URL, which cannot fail): appending a query pair is a function
/// of the URL text and the pair.
#[verifier::external_body]
fn append_url_param(u: &str, key: &str, value: &str) -> (r: String)
    requires
        url_normalized(u@) is Some,
    ensures
        r@ == url_with_param(u@, key@, value@),
{
    let mut parsed = url::Url::parse(u).unwrap();
    parsed.query_pairs_mut().append_pair(key, value);
    parsed.as_str().to_owned()
}

/// The expiration applied to an insertion: the override header if it parses
/// (zero meaning "no expiration"), the configured default otherwise.
pub open spec fn spec_expiration(cfg: QuiViveConfig, hdr: Option<String>) -> Option<u32> {
    match hdr {
        Some(h) => match spec_parse_u32(h@) {
            Some(n) => if n == 0 {
                Option::None
            } else {
                Some(n)
            },
            Option::None => cfg.default_expiration,
        },
        Option::None => cfg.default_expiration,
    }
}

/// A well-generated identifier: exactly `id_length` characters, each from
/// the configured alphabet.
pub open spec fn valid_gen_id(cfg: QuiViveConfig, id: Seq<char>) -> bool {
    id.len() == cfg.id_length as nat && (forall|i: int|
        0 <= i < id.len() ==> cfg.id_charset@.contains(id[i]))
}

/// The body returned on successful creation: the configured external URL,
/// the operation-specific middle, the identifier, and a newline.
pub open spec fn created_body(cfg: QuiViveConfig, middle: Seq<char>, id: Seq<char>) -> Seq<char> {
    cfg.external_url@ + middle + id + "\n"@
}

/// Key-entry creation: too-large bodies are rejected before anything is
/// stored, bodies must be UTF-8, and an accepted body is stored verbatim
/// under the identifier with the resolved expiration.
pub open spec fn key_create_spec(
    cfg: QuiViveConfig,
    pre: Map<Seq<char>, RecordModel>,
    body: Seq<u8>,
    exp: Option<u32>,
    now: u32,
    id: Seq<char>,
    post: Map<Seq<char>, RecordModel>,
    resp: Response,
) -> bool {
    if body.len() > cfg.max_value_size {
        post == pre && resp_status_only(resp, 413)
    } else if !valid_utf8(body) {
        post == pre && resp_status_only(resp, 400)
    } else {
        post == pre.insert(
            id,
            (RecordModel {
                id: id,
                val: decode_utf8(body),
                url: Seq::<char>::empty(),
                deadline: deadline_of(exp, now),
            }),
        ) && resp_ok_text(resp, created_body(cfg, "/key/"@, id))
    }
}

/// Redirect-entry creation: like key creation, but the body is the redirect
/// target and the payload is left empty, and the returned link omits the
/// operation segment.
pub open spec fn url_create_spec(
    cfg: QuiViveConfig,
    pre: Map<Seq<char>, RecordModel>,
    body: Seq<u8>,
    exp: Option<u32>,
    now: u32,
    id: Seq<char>,
    post: Map<Seq<char>, RecordModel>,
    resp: Response,
) -> bool {
    if body.len() > cfg.max_value_size {
        post == pre && resp_status_only(resp, 413)
    } else if !valid_utf8(body) {
        post == pre && resp_status_only(resp, 400)
    } else {
        post == pre.insert(
            id,
            (RecordModel {
                id: id,
                val: Seq::<char>::empty(),
                url: decode_utf8(body),
                deadline: deadline_of(exp, now),
            }),
        ) && resp_ok_text(resp, created_body(cfg, "/"@, id))
    }
}

/// Storage step of referral creation, once the destination URL has been
/// resolved to `target`: the body is stored as payload, `target` as the
/// redirect.
pub open spec fn inv_store_spec(
    cfg: QuiViveConfig,
    pre: Map<Seq<char>, RecordModel>,
    body: Seq<u8>,
    exp: Option<u32>,
    now: u32,
    id: Seq<char>,
    target: Seq<char>,
    post: Map<Seq<char>, RecordModel>,
    resp: Response,
) -> bool {
    if body.len() > cfg.max_value_size {
        post == pre && resp_status_only(resp, 413)
    } else if !valid_utf8(body) {
        post == pre && resp_status_only(resp, 400)
    } else {
        post == pre.insert(
            id,
            (RecordModel {
                id: id,
                val: decode_utf8(body),
                url: target,
                deadline: deadline_of(exp, now),
            }),
        ) && resp_ok_text(resp, created_body(cfg, "/"@, id))
    }
}

/// Referral creation: the destination header is required and must parse as a
/// URL; if a parameter name is supplied, the generated identifier is
/// appended to the destination under it before storage. These checks precede
/// the body checks.
pub open spec fn inv_create_spec(
    cfg: QuiViveConfig,
    pre: Map<Seq<char>, RecordModel>,
    req: Request,
    exp: Option<u32>,
    now: u32,
    id: Seq<char>,
    post: Map<Seq<char>, RecordModel>,
    resp: Response,
) -> bool {
    match req.dst_url {
        Option::None => post == pre && resp_status_only(resp, 400),
        Some(d) => match url_normalized(d@) {
            Option::None => post == pre && resp_status_only(resp, 400),
            Some(u) => {
                let target = match opt_view(req.id_param) {
                    Option::None => u,
                    Some(p) => url_with_param(u, p, id),
                };
                inv_store_spec(cfg, pre, req.body@, exp, now, id, target, post, resp)
            },
        },
    }
}

/// The dispatcher's specification: given the configuration, the store
/// contents before the call, the request, the current time and the
/// identifier chosen for a generating operation, which store contents and
/// response the call produces.
pub open spec fn call_spec(
    cfg: QuiViveConfig,
    pre: Map<Seq<char>, RecordModel>,
    req: Request,
    now: u32,
    id: Seq<char>,
    post: Map<Seq<char>, RecordModel>,
    resp: Response,
) -> bool {
    let exp = spec_expiration(cfg, req.expiration);
    match route_of(req.method, req.path@) {
        Route::Health => {
            let rec = RecordModel {
                id: "health"@,
                val: dec_of(now as nat),
                url: Seq::<char>::empty(),
                deadline: deadline_of(exp, now),
            };
            post == pre.insert("health"@, rec) && if fresh_at(rec, now) {
                resp_status_only(resp, 200)
            } else {
                resp_status_only(resp, 500)
            }
        },
        Route::KeyNew => valid_gen_id(cfg, id) && key_create_spec(
            cfg,
            pre,
            req.body@,
            exp,
            now,
            id,
            post,
            resp,
        ),
        Route::KeyCustom { id: cid } => match cfg.custom_id_format {
            CustomIdFormat::RejectAll => post == pre && resp_status_only(resp, 400),
            CustomIdFormat::Uuid => if uuid_parses(cid) {
                key_create_spec(cfg, pre, req.body@, exp, now, cid, post, resp)
            } else {
                post == pre && resp_status_only(resp, 400)
            },
            CustomIdFormat::All => key_create_spec(cfg, pre, req.body@, exp, now, cid, post, resp),
        },
        Route::KeyFetch { id: cid } => post == pre && match lookup(pre, cid, now) {
            Some(rec) => resp_ok_text(resp, rec.val),
            Option::None => resp_status_only(resp, 404),
        },
        Route::KeyDelete { id: cid } => post == pre.remove(cid) && resp_status_only(resp, 200),
        Route::UrlNew => valid_gen_id(cfg, id) && url_create_spec(
            cfg,
            pre,
            req.body@,
            exp,
            now,
            id,
            post,
            resp,
        ),
        Route::UrlFetch { id: cid } => post == pre && match lookup(pre, cid, now) {
            Some(rec) => resp_redirect(resp, rec.url),
            Option::None => resp_status_only(resp, 404),
        },
        Route::InvNew => valid_gen_id(cfg, id) && inv_create_spec(
            cfg,
            pre,
            req,
            exp,
            now,
            id,
            post,
            resp,
        ),
        Route::InvFetch { id: cid } => post == pre && match lookup(pre, cid, now) {
            Some(rec) => resp_redirect(resp, rec.url),
            Option::None => resp_status_only(resp, 404),
        },
        Route::AnyFetch { id: cid } => post == pre && match lookup(pre, cid, now) {
            Some(rec) => if rec.url.len() > 0 {
                resp_redirect(resp, rec.url)
            } else {
                resp_status_only(resp, 404)
            },
            Option::None => resp_status_only(resp, 404),
        },
        Route::Unknown => post == pre && resp_status_only(resp, 404),
    }
}

/// The service: the resolved configuration and the shared store handle.
pub struct QuiViveService<S> {
    pub cfg: QuiViveConfig,
    pub cache: S,
}

impl<S: EntryStore> QuiViveService<S> {
    /// Generate a random identifier: exactly `id_length` characters drawn
    /// from `id_charset`, failing exactly when the alphabet is empty. No
    /// collision check is made against existing entries; a repeated
    /// identifier overwrites the entry sharing it.
    pub fn gen_id(&self) -> (r: Option<String>)
        ensures
            r is Some <==> self.cfg.id_charset@.len() > 0,
            r matches Some(id) ==> valid_gen_id(self.cfg, id@),
    {
        let charset = self.cfg.id_charset.as_str();
        let n = charset.unicode_len();
        if n == 0 {
            return Option::None;
        }
        let mut id = String::new();
        let mut i: u32 = 0;
        while i < self.cfg.id_length
            invariant
                n == charset@.len(),
                n > 0,
                charset@ == self.cfg.id_charset@,
                0 <= i <= self.cfg.id_length,
                id@.len() == i as nat,
                forall|j: int| 0 <= j < id@.len() ==> self.cfg.id_charset@.contains(id@[j]),
            decreases self.cfg.id_length - i,
        {
            let k = rand_index(n);
            let c = charset.substring_char(k, k + 1);
            id.append(c);
            proof {
                assert(c@ == charset@.subrange(k as int, k as int + 1));
                assert(id@.last() == charset@[k as int]);
            }
            i = i + 1;
        }
        Some(id)
    }

    /// Resolve the expiration for a request: the override header if present
    /// and numeric (zero meaning "no expiration"), the configured default
    /// otherwise.
    pub fn get_expiration(&self, request: &Request) -> (r: Option<u32>)
        ensures
            r == spec_expiration(self.cfg, request.expiration),
    {
        match &request.expiration {
            Some(h) => match parse_u32(h.as_str()) {
                Some(n) => if n == 0 {
                    Option::None
                } else {
                    Some(n)
                },
                Option::None => self.cfg.default_expiration,
            },
            Option::None => self.cfg.default_expiration,
        }
    }

    /// Store a key entry under `id` and answer with the created link.
    fn handle_key_create(&mut self, id: String, body: Vec<u8>, exp: Option<u32>, now: u32) -> (resp:
        Response)
        ensures
            S::obeys_model() ==> key_create_spec(
                old(self).cfg,
                old(self).cache.model(),
                body@,
                exp,
                now,
                id@,
                final(self).cache.model(),
                resp,
            ),
            final(self).cfg == old(self).cfg,
            body@.len() > old(self).cfg.max_value_size ==> resp.status == 413 && final(self).cache == old(self).cache,
            body@.len() <= old(self).cfg.max_value_size && !valid_utf8(body@) ==> resp.status
                == 400 && final(self).cache == old(self).cache,
    {
        if body.len() > self.cfg.max_value_size {
            return status_response(413);
        }
        match bytes_to_string(body) {
            Option::None => status_response(400),
            Some(value) => {
                let entry = QuiViveEntry { id: id.clone(), val: value, url: String::new() };
                let link = build_link(&self.cfg.external_url, "/key/", id.as_str());
                match self.cache.insert_with(&id, entry, exp, now) {
                    Ok(_) => ok_text_response(link),
                    Err(_) => status_response(500),
                }
            },
        }
    }

    /// Store a redirect entry under `id` and answer with the created link.
    fn handle_url_create(&mut self, id: String, body: Vec<u8>, exp: Option<u32>, now: u32) -> (resp:
        Response)
        ensures
            S::obeys_model() ==> url_create_spec(
                old(self).cfg,
                old(self).cache.model(),
                body@,
                exp,
                now,
                id@,
                final(self).cache.model(),
                resp,
            ),
            final(self).cfg == old(self).cfg,
            body@.len() > old(self).cfg.max_value_size ==> resp.status == 413 && final(self).cache == old(self).cache,
            body@.len() <= old(self).cfg.max_value_size && !valid_utf8(body@) ==> resp.status
                == 400 && final(self).cache == old(self).cache,
    {
        if body.len() > self.cfg.max_value_size {
            return status_response(413);
        }
        match bytes_to_string(body) {
            Option::None => status_response(400),
            Some(value) => {
                let entry = QuiViveEntry { id: id.clone(), val: String::new(), url: value };
                let link = build_link(&self.cfg.external_url, "/", id.as_str());
                match self.cache.insert_with(&id, entry, exp, now) {
                    Ok(_) => ok_text_response(link),
                    Err(_) => status_response(500),
                }
            },
        }
    }

    /// Store a referral entry under `id` with the resolved redirect target
    /// and answer with the created link.
    fn handle_inv_store(
        &mut self,
        id: String,
        target: String,
        body: Vec<u8>,
        exp: Option<u32>,
        now: u32,
    ) -> (resp: Response)
        ensures
            S::obeys_model() ==> inv_store_spec(
                old(self).cfg,
                old(self).cache.model(),
                body@,
                exp,
                now,
                id@,
                target@,
                final(self).cache.model(),
                resp,
            ),
            final(self).cfg == old(self).cfg,
            body@.len() > old(self).cfg.max_value_size ==> resp.status == 413 && final(self).cache == old(self).cache,
            body@.len() <= old(self).cfg.max_value_size && !valid_utf8(body@) ==> resp.status
                == 400 && final(self).cache == old(self).cache,
    {
        if body.len() > self.cfg.max_value_size {
            return status_response(413);
        }
        match bytes_to_string(body) {
            Option::None => status_response(400),
            Some(value) => {
                let entry = QuiViveEntry { id: id.clone(), val: value, url: target };
                let link = build_link(&self.cfg.external_url, "/", id.as_str());
                match self.cache.insert_with(&id, entry, exp, now) {
                    Ok(_) => ok_text_response(link),
                    Err(_) => status_response(500),
                }
            },
        }
    }

    /// Dispatch one request at time `now`.
    ///
    /// When the store provably behaves like its map model, the call is fully
    /// described by `call_spec` for some identifier (the generated one, for
    /// the generating operations). Deletion answers success unconditionally,
    /// whatever the store does.
    pub fn call(&mut self, request: Request, now: u32) -> (resp: Response)
        requires
            old(self).cfg.wf(),
        ensures
            S::obeys_model() ==> exists|id: Seq<char>|
                call_spec(
                    old(self).cfg,
                    old(self).cache.model(),
                    request,
                    now,
                    id,
                    final(self).cache.model(),
                    resp,
                ),
            final(self).cfg == old(self).cfg,
            route_of(request.method, request.path@) is KeyDelete ==> resp.status == 200,
            (route_of(request.method, request.path@) is KeyNew || route_of(
                request.method,
                request.path@,
            ) is UrlNew) && request.body@.len() > old(self).cfg.max_value_size ==> resp.status
                == 413 && final(self).cache == old(self).cache,
            route_of(request.method, request.path@) is KeyCustom && old(self).cfg.custom_id_format
                == CustomIdFormat::RejectAll ==> resp.status == 400 && final(self).cache == old(self).cache,
            route_of(request.method, request.path@) is InvNew && request.dst_url is None
                ==> resp.status == 400 && final(self).cache == old(self).cache,
            route_of(request.method, request.path@) is Unknown ==> resp.status == 404 && final(self).cache == old(self).cache,
            (route_of(request.method, request.path@) is KeyFetch || route_of(
                request.method,
                request.path@,
            ) is UrlFetch || route_of(request.method, request.path@) is InvFetch || route_of(
                request.method,
                request.path@,
            ) is AnyFetch) ==> final(self).cache == old(self).cache,
    {
        let op = classify(request.method, request.path.as_str());
        let ghost pre = self.cache.model();
        match op {
            Op::Health => {
                let id = String::from_str("health");
                let input = u32_to_dec(now);
                let exp = self.get_expiration(&request);
                let entry = QuiViveEntry { id: id.clone(), val: input.clone(), url: String::new() };
                let resp = match self.cache.insert_with(&id, entry, exp, now) {
                    Ok(_) => match self.cache.get(&id, now) {
                        Ok(Some(e)) => if e.val.eq(&input) {
                            status_response(200)
                        } else {
                            status_response(500)
                        },
                        _ => status_response(500),
                    },
                    Err(_) => status_response(500),
                };
                proof {
                    if S::obeys_model() {
                        assert(call_spec(
                            old(self).cfg,
                            pre,
                            request,
                            now,
                            Seq::<char>::empty(),
                            self.cache.model(),
                            resp,
                        ));
                    }
                }
                resp
            },
            Op::KeyNew => {
                let id = self.gen_id().unwrap();
                let exp = self.get_expiration(&request);
                let ghost gid = id@;
                let resp = self.handle_key_create(id, request.body, exp, now);
                proof {
                    if S::obeys_model() {
                        assert(call_spec(
                            old(self).cfg,
                            pre,
                            request,
                            now,
                            gid,
                            self.cache.model(),
                            resp,
                        ));
                    }
                }
                resp
            },
            Op::KeyCustom { id } => {
                let bad = match self.cfg.custom_id_format {
                    CustomIdFormat::RejectAll => true,
                    CustomIdFormat::All => false,
                    CustomIdFormat::Uuid => !is_uuid(id.as_str()),
                };
                if bad {
                    let resp = status_response(400);
                    proof {
                        if S::obeys_model() {
                            assert(call_spec(
                                old(self).cfg,
                                pre,
                                request,
                                now,
                                Seq::<char>::empty(),
                                self.cache.model(),
                                resp,
                            ));
                        }
                    }
                    resp
                } else {
                    let exp = self.get_expiration(&request);
                    let resp = self.handle_key_create(id, request.body, exp, now);
                    proof {
                        if S::obeys_model() {
                            assert(call_spec(
                                old(self).cfg,
                                pre,
                                request,
                                now,
                                Seq::<char>::empty(),
                                self.cache.model(),
                                resp,
                            ));
                        }
                    }
                    resp
                }
            },
            Op::KeyFetch { id } => {
                let resp = match self.cache.get(&id, now) {
                    Ok(Some(entry)) => ok_text_response(entry.val),
                    _ => status_response(404),
                };
                proof {
                    if S::obeys_model() {
                        assert(call_spec(
                            old(self).cfg,
                            pre,
                            request,
                            now,
                            Seq::<char>::empty(),
                            self.cache.model(),
                            resp,
                        ));
                    }
                }
                resp
            },
            Op::KeyDelete { id } => {
                let _ = self.cache.remove(&id);
                let resp = status_response(200);
                proof {
                    if S::obeys_model() {
                        assert(call_spec(
                            old(self).cfg,
                            pre,
                            request,
                            now,
                            Seq::<char>::empty(),
                            self.cache.model(),
                            resp,
                        ));
                    }
                }
                resp
            },
            Op::UrlNew => {
                let id = self.gen_id().unwrap();
                let exp = self.get_expiration(&request);
                let ghost gid = id@;
                let resp = self.handle_url_create(id, request.body, exp, now);
                proof {
                    if S::obeys_model() {
                        assert(call_spec(
                            old(self).cfg,
                            pre,
                            request,
                            now,
                            gid,
                            self.cache.model(),
                            resp,
                        ));
                    }
                }
                resp
            },
            Op::UrlFetch { id } => {
                let resp = match self.cache.get(&id, now) {
                    Ok(Some(entry)) => redirect_response(entry.url),
                    _ => status_response(404),
                };
                proof {
                    if S::obeys_model() {
                        assert(call_spec(
                            old(self).cfg,
                            pre,
                            request,
                            now,
                            Seq::<char>::empty(),
                            self.cache.model(),
                            resp,
                        ));
                    }
                }
                resp
            },
            Op::InvNew => {
                let id = self.gen_id().unwrap();
                let exp = self.get_expiration(&request);
                let ghost gid = id@;
                let resp = match &request.dst_url {
                    Option::None => status_response(400),
                    Some(d) => match parse_url(d.as_str()) {
                        Option::None => status_response(400),
                        Some(u) => {
                            let target = match &request.id_param {
                                Option::None => u,
                                Some(p) => append_url_param(u.as_str(), p.as_str(), id.as_str()),
                            };
                            self.handle_inv_store(id, target, request.body, exp, now)
                        },
                    },
                };
                proof {
                    if S::obeys_model() {
                        assert(call_spec(
                            old(self).cfg,
                            pre,
                            request,
                            now,
                            gid,
                            self.cache.model(),
                            resp,
                        ));
                    }
                }
                resp
            },
            Op::InvFetch { id } => {
                let resp = match self.cache.get(&id, now) {
                    Ok(Some(entry)) => redirect_response(entry.url),
                    _ => status_response(404),
                };
                proof {
                    if S::obeys_model() {
                        assert(call_spec(
                            old(self).cfg,
                            pre,
                            request,
                            now,
                            Seq::<char>::empty(),
                            self.cache.model(),
                            resp,
                        ));
                    }
                }
                resp
            },
            Op::AnyFetch { id } => {
                let resp = match self.cache.get(&id, now) {
                    Ok(Some(entry)) => if !entry.url.as_str().is_empty() {
                        redirect_response(entry.url)
                    } else {
                        status_response(404)
                    },
                    _ => status_response(404),
                };
                proof {
                    if S::obeys_model() {
                        assert(call_spec(
                            old(self).cfg,
                            pre,
                            request,
                            now,
                            Seq::<char>::empty(),
                            self.cache.model(),
                            resp,
                        ));
                    }
                }
                resp
            },
            Op::Unknown => {
                let resp = status_response(404);
                proof {
                    if S::obeys_model() {
                        assert(call_spec(
                            old(self).cfg,
                            pre,
                            request,
                            now,
                            Seq::<char>::empty(),
                            self.cache.model(),
                            resp,
                        ));
                    }
                }
                resp
            },
        }
    }
}

} // verus!
