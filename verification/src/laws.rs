//! The service's general laws, each proved against the dispatcher's
//! specification (`call_spec`) and the store model: round trips, delete
//! idempotence, the expiration boundary, the custom-identifier policy, the
//! size limit, the generic-lookup discriminator, and the health probe.

use vstd::prelude::*;
use vstd::utf8::valid_utf8;
use vstd::utf8::decode_utf8;

use crate::config::CustomIdFormat;
use crate::config::QuiViveConfig;
use crate::service::Request;
use crate::service::Response;
use crate::service::Route;
use crate::service::call_spec;
use crate::service::resp_ok_text;
use crate::service::resp_redirect;
use crate::service::route_of;
use crate::service::spec_expiration;
use crate::service::uuid_parses;
use crate::store::RecordModel;
use crate::store::lookup;
use crate::text::dec_of;
use crate::text::dec_val;
use crate::text::spec_digit;
use crate::text::digit_val;

verus! {

/// Decimal rendering is left-invertible: reading the digits back yields the
/// number, so distinct numbers render distinctly.
pub proof fn lemma_dec_of_value(n: nat)
    ensures
        dec_val(dec_of(n)) == n,
    decreases n,
{
    if n < 10 {
        assert(dec_val(Seq::<char>::empty()) == 0);
        assert(dec_of(n).drop_last() =~= Seq::<char>::empty());
        assert(digit_val(spec_digit(n)) == n);
    } else {
        lemma_dec_of_value(n / 10);
        assert(dec_of(n).drop_last() =~= dec_of(n / 10));
        assert(digit_val(spec_digit(n % 10)) == n % 10);
    }
}

/// Storing a payload and then fetching it by the returned identifier yields
/// exactly the payload: if a key creation succeeded with identifier `id` and
/// the entry has not expired by the time of the fetch, `GET /key/{id}`
/// returns the stored text and leaves the store unchanged.
pub proof fn lemma_key_round_trip(
    cfg: QuiViveConfig,
    pre: Map<Seq<char>, RecordModel>,
    req1: Request,
    now1: u32,
    id: Seq<char>,
    mid: Map<Seq<char>, RecordModel>,
    resp1: Response,
    req2: Request,
    now2: u32,
    gid2: Seq<char>,
    post: Map<Seq<char>, RecordModel>,
    resp2: Response,
)
    requires
        route_of(req1.method, req1.path@) is KeyNew,
        call_spec(cfg, pre, req1, now1, id, mid, resp1),
        resp1.status == 200,
        route_of(req2.method, req2.path@) == (Route::KeyFetch { id: id }),
        call_spec(cfg, mid, req2, now2, gid2, post, resp2),
        spec_expiration(cfg, req1.expiration) matches Some(e) ==> (now2 as u64) < now1 as u64
            + e as u64,
    ensures
        resp2.status == 200,
        resp2.body@ == decode_utf8(req1.body@),
        post == mid,
{
}

/// Storing a destination and then fetching it by the returned identifier
/// redirects there: if a redirect creation succeeded with identifier `id`
/// and the entry has not expired, `GET /url/{id}` answers a permanent
/// redirect to the stored destination text.
pub proof fn lemma_url_round_trip(
    cfg: QuiViveConfig,
    pre: Map<Seq<char>, RecordModel>,
    req1: Request,
    now1: u32,
    id: Seq<char>,
    mid: Map<Seq<char>, RecordModel>,
    resp1: Response,
    req2: Request,
    now2: u32,
    gid2: Seq<char>,
    post: Map<Seq<char>, RecordModel>,
    resp2: Response,
)
    requires
        route_of(req1.method, req1.path@) is UrlNew,
        call_spec(cfg, pre, req1, now1, id, mid, resp1),
        resp1.status == 200,
        route_of(req2.method, req2.path@) == (Route::UrlFetch { id: id }),
        call_spec(cfg, mid, req2, now2, gid2, post, resp2),
        spec_expiration(cfg, req1.expiration) matches Some(e) ==> (now2 as u64) < now1 as u64
            + e as u64,
    ensures
        resp2.status == 301,
        resp2.location matches Some(l) && l@ == decode_utf8(req1.body@),
        post == mid,
{
}

/// Deletion is idempotent: deleting an identifier that is not stored still
/// answers success, and the store is unchanged.
pub proof fn lemma_delete_idempotent(
    cfg: QuiViveConfig,
    pre: Map<Seq<char>, RecordModel>,
    req: Request,
    now: u32,
    gid: Seq<char>,
    cid: Seq<char>,
    post: Map<Seq<char>, RecordModel>,
    resp: Response,
)
    requires
        route_of(req.method, req.path@) == (Route::KeyDelete { id: cid }),
        call_spec(cfg, pre, req, now, gid, post, resp),
        !pre.contains_key(cid),
    ensures
        resp.status == 200,
        post == pre,
{
    assert(pre.remove(cid) =~= pre);
}

/// An expiration override of "0" resolves to "no expiration", whatever the
/// configured default.
pub proof fn lemma_zero_override_never_expires(cfg: QuiViveConfig, hdr: String)
    requires
        hdr@ == "0"@,
    ensures
        spec_expiration(cfg, Some(hdr)) is None,
{
    reveal_strlit("0");
    assert(dec_val(Seq::<char>::empty()) == 0);
    assert(hdr@.drop_last() =~= Seq::<char>::empty());
    assert(dec_val(hdr@) == 0);
}

/// The expiration boundary: a stored record without deadline is returned by
/// a lookup at every time; one with a deadline is returned strictly before
/// it and never from the deadline on.
pub proof fn lemma_expiry_boundary(
    m: Map<Seq<char>, RecordModel>,
    id: Seq<char>,
    rec: RecordModel,
    t: u32,
)
    requires
        m.contains_key(id),
        m[id] == rec,
    ensures
        rec.deadline is None ==> lookup(m, id, t) == Some(rec),
        rec.deadline matches Some(d) && (t as u64) < d ==> lookup(m, id, t) == Some(rec),
        rec.deadline matches Some(d) && (t as u64) >= d ==> lookup(m, id, t) is None,
{
}

/// The custom-identifier policy: rejecting configurations answer 400 and
/// store nothing; the UUID policy turns exactly on whether the identifier
/// parses as a UUID; an accepted identifier with a well-formed body within
/// the size limit is stored and answered with the created link.
pub proof fn lemma_custom_id_policy(
    cfg: QuiViveConfig,
    pre: Map<Seq<char>, RecordModel>,
    req: Request,
    now: u32,
    gid: Seq<char>,
    cid: Seq<char>,
    post: Map<Seq<char>, RecordModel>,
    resp: Response,
)
    requires
        route_of(req.method, req.path@) == (Route::KeyCustom { id: cid }),
        call_spec(cfg, pre, req, now, gid, post, resp),
    ensures
        cfg.custom_id_format == CustomIdFormat::RejectAll ==> resp.status == 400 && post == pre,
        cfg.custom_id_format == CustomIdFormat::Uuid && !uuid_parses(cid) ==> resp.status == 400
            && post == pre,
        (cfg.custom_id_format == CustomIdFormat::All || (cfg.custom_id_format
            == CustomIdFormat::Uuid && uuid_parses(cid))) && req.body@.len()
            <= cfg.max_value_size && valid_utf8(req.body@) ==> resp.status == 200
            && post.contains_key(cid),
{
}

/// The size limit: a body over `max_value_size` bytes is answered "payload
/// too large" and nothing is stored, on every storing operation (for
/// referral creation, once the destination checks that precede the body
/// checks have passed).
pub proof fn lemma_size_limit(
    cfg: QuiViveConfig,
    pre: Map<Seq<char>, RecordModel>,
    req: Request,
    now: u32,
    gid: Seq<char>,
    post: Map<Seq<char>, RecordModel>,
    resp: Response,
)
    requires
        call_spec(cfg, pre, req, now, gid, post, resp),
        req.body@.len() > cfg.max_value_size,
    ensures
        route_of(req.method, req.path@) is KeyNew ==> resp.status == 413 && post == pre,
        route_of(req.method, req.path@) is UrlNew ==> resp.status == 413 && post == pre,
        route_of(req.method, req.path@) matches Route::KeyCustom { id: cid }
            && (cfg.custom_id_format == CustomIdFormat::All || (cfg.custom_id_format
            == CustomIdFormat::Uuid && uuid_parses(cid))) ==> resp.status == 413 && post == pre,
        route_of(req.method, req.path@) is InvNew && (req.dst_url matches Some(d)
            && crate::service::url_normalized(d@) is Some) ==> resp.status == 413 && post == pre,
{
}

/// The generic-lookup discriminator: a stored entry with a non-empty
/// redirect target resolves through the bare-identifier path as a redirect,
/// while a key-only entry (empty target) is "not found" there even though
/// the key fetch path returns its payload.
pub proof fn lemma_generic_discriminator(
    cfg: QuiViveConfig,
    pre: Map<Seq<char>, RecordModel>,
    req_any: Request,
    req_key: Request,
    now: u32,
    gid1: Seq<char>,
    gid2: Seq<char>,
    cid: Seq<char>,
    rec: RecordModel,
    post_any: Map<Seq<char>, RecordModel>,
    post_key: Map<Seq<char>, RecordModel>,
    resp_any: Response,
    resp_key: Response,
)
    requires
        route_of(req_any.method, req_any.path@) == (Route::AnyFetch { id: cid }),
        call_spec(cfg, pre, req_any, now, gid1, post_any, resp_any),
        route_of(req_key.method, req_key.path@) == (Route::KeyFetch { id: cid }),
        call_spec(cfg, pre, req_key, now, gid2, post_key, resp_key),
        lookup(pre, cid, now) == Some(rec),
    ensures
        rec.url.len() > 0 ==> resp_redirect(resp_any, rec.url),
        rec.url.len() == 0 ==> resp_any.status == 404,
        resp_ok_text(resp_key, rec.val),
        post_any == pre,
        post_key == pre,
{
}

/// The health probe: with an obeying store and a positive (or absent)
/// resolved expiration, each call stores the current timestamp under the
/// sentinel identifier and answers success, and calls at distinct times
/// store distinct payloads.
pub proof fn lemma_health_probe(
    cfg: QuiViveConfig,
    pre: Map<Seq<char>, RecordModel>,
    req1: Request,
    req2: Request,
    now1: u32,
    now2: u32,
    gid1: Seq<char>,
    gid2: Seq<char>,
    mid: Map<Seq<char>, RecordModel>,
    post: Map<Seq<char>, RecordModel>,
    resp1: Response,
    resp2: Response,
)
    requires
        route_of(req1.method, req1.path@) is Health,
        route_of(req2.method, req2.path@) is Health,
        call_spec(cfg, pre, req1, now1, gid1, mid, resp1),
        call_spec(cfg, mid, req2, now2, gid2, post, resp2),
        spec_expiration(cfg, req1.expiration) matches Some(e) ==> e > 0,
        spec_expiration(cfg, req2.expiration) matches Some(e) ==> e > 0,
    ensures
        resp1.status == 200,
        resp2.status == 200,
        mid.contains_key("health"@) && mid["health"@].val == dec_of(now1 as nat),
        post.contains_key("health"@) && post["health"@].val == dec_of(now2 as nat),
        now1 != now2 ==> mid["health"@].val != post["health"@].val,
{
    if now1 != now2 {
        lemma_dec_of_value(now1 as nat);
        lemma_dec_of_value(now2 as nat);
    }
}

} // verus!
