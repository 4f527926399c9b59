//! Tests of the library's leaf pieces: identifier generation, configuration
//! parsing, text helpers, backend selection, and the shutdown flag.

use qui_vive::CacheKind;
use qui_vive::CustomIdFormat;
use qui_vive::MemoryStore;
use qui_vive::QuiViveConfig;
use qui_vive::QuiViveService;
use qui_vive::ShutdownSignal;
use qui_vive::get_timestamp;
use qui_vive::store::select_cache_kind;
use qui_vive::text::parse_u32;
use qui_vive::text::u32_to_dec;

#[test]
fn generated_ids_have_configured_length_and_alphabet() {
    let cfg = QuiViveConfig::new();
    let charset = cfg.id_charset.clone();
    let s = QuiViveService { cfg, cache: MemoryStore::new() };
    for _ in 0..16 {
        let id = s.gen_id().unwrap();
        assert_eq!(id.chars().count(), 12);
        assert!(id.chars().all(|c| charset.contains(c)));
    }
}

#[test]
fn generated_id_length_follows_configuration() {
    let mut cfg = QuiViveConfig::new();
    cfg.id_length = 3;
    let s = QuiViveService { cfg, cache: MemoryStore::new() };
    assert_eq!(s.gen_id().unwrap().chars().count(), 3);
}

#[test]
fn empty_alphabet_yields_no_id() {
    let mut cfg = QuiViveConfig::new();
    cfg.id_charset = String::new();
    let s = QuiViveService { cfg, cache: MemoryStore::new() };
    assert!(s.gen_id().is_none());
}

#[test]
fn default_configuration() {
    let c = QuiViveConfig::new();
    assert_eq!(c.external_url, "");
    assert_eq!(c.listener_url, "");
    assert!(c.redis_hostname.is_none());
    assert!(c.redis_password.is_none());
    assert!(c.cache_type.is_none());
    assert_eq!(c.id_length, 12);
    assert_eq!(c.id_charset, "23456789abcdefghjkimnpqrstuvwxyzABCDEFGHJKLMNPQRSTUVWXYZ");
    assert_eq!(c.custom_id_format, CustomIdFormat::All);
    assert_eq!(c.default_expiration, Some(86400));
    assert_eq!(c.max_value_size, 1024 * 1024);
}

#[test]
fn custom_id_format_names() {
    assert_eq!(QuiViveConfig::parse_custom_id_format("none"), CustomIdFormat::RejectAll);
    assert_eq!(QuiViveConfig::parse_custom_id_format("NONE"), CustomIdFormat::RejectAll);
    assert_eq!(QuiViveConfig::parse_custom_id_format("uuid"), CustomIdFormat::Uuid);
    assert_eq!(QuiViveConfig::parse_custom_id_format("Uuid"), CustomIdFormat::Uuid);
    assert_eq!(QuiViveConfig::parse_custom_id_format("all"), CustomIdFormat::All);
    assert_eq!(QuiViveConfig::parse_custom_id_format("anything"), CustomIdFormat::All);
}

#[test]
fn expiration_normalization() {
    assert_eq!(QuiViveConfig::normalize_expiration(0), None);
    assert_eq!(QuiViveConfig::normalize_expiration(7), Some(7));
}

#[test]
fn decimal_rendering() {
    assert_eq!(u32_to_dec(0), "0");
    assert_eq!(u32_to_dec(7), "7");
    assert_eq!(u32_to_dec(1234567890), "1234567890");
    assert_eq!(u32_to_dec(u32::MAX), "4294967295");
}

#[test]
fn decimal_parsing() {
    assert_eq!(parse_u32("0"), Some(0));
    assert_eq!(parse_u32("86400"), Some(86400));
    assert_eq!(parse_u32("4294967295"), Some(u32::MAX));
    assert_eq!(parse_u32("4294967296"), None);
    assert_eq!(parse_u32(""), None);
    assert_eq!(parse_u32("12a"), None);
    assert_eq!(parse_u32("-1"), None);
    assert_eq!(parse_u32("+1"), None);
}

#[test]
fn backend_selection() {
    assert_eq!(select_cache_kind(&None).unwrap(), CacheKind::Memory);
    assert_eq!(select_cache_kind(&Some("memory".to_string())).unwrap(), CacheKind::Memory);
    assert_eq!(select_cache_kind(&Some("redis".to_string())).unwrap(), CacheKind::Redis);
    let err = select_cache_kind(&Some("tape".to_string())).unwrap_err();
    assert_eq!(err.message, "invalid cache type");
}

#[test]
fn timestamps_do_not_go_backwards() {
    let a = get_timestamp();
    let b = get_timestamp();
    assert!(b >= a);
}

#[test]
fn shutdown_signal_latches() {
    let s = ShutdownSignal::new();
    assert!(!s.is_triggered());
    s.trigger();
    assert!(s.is_triggered());
    assert!(s.is_triggered());
}
