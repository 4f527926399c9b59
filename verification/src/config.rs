//! Service configuration: the policy parameters the dispatcher consults.
//!
//! The configuration is assembled outside the library (command line,
//! environment) and handed to the core fully resolved. The library fixes the
//! defaults and the interpretation of the raw text values.

use vstd::prelude::*;

verus! {

/// Policy governing caller-supplied identifiers on the custom-id path.
#[derive(Clone, Copy, PartialEq, Eq, Structural, Debug)]
pub enum CustomIdFormat {
    /// Reject every caller-supplied identifier.
    RejectAll,
    /// Accept a caller-supplied identifier only if it parses as a UUID.
    Uuid,
    /// Accept any identifier-shaped path segment.
    All,
}

/// The characters identifiers are drawn from by default: digits and letters
/// without the easily-confused ones (0, 1, l, o, I, O).
pub open spec fn default_id_charset() -> Seq<char> {
    "23456789abcdefghjkimnpqrstuvwxyzABCDEFGHJKLMNPQRSTUVWXYZ"@
}

#[derive(Clone)]
pub struct QuiViveConfig {
    /// Base URL used to build the links returned on successful creation.
    pub external_url: String,
    /// Address the process listens on; consumed by the process wiring only.
    pub listener_url: String,
    /// Hostname of the remote cache backend, when one is selected.
    pub redis_hostname: Option<String>,
    /// Password for the remote cache backend.
    pub redis_password: Option<String>,
    /// Which store backend to construct ("memory" or "redis").
    pub cache_type: Option<String>,
    /// Exact length of generated identifiers.
    pub id_length: u32,
    /// Alphabet generated identifiers are drawn from; must not be empty.
    pub id_charset: String,
    /// Policy for caller-supplied identifiers.
    pub custom_id_format: CustomIdFormat,
    /// Expiration in seconds applied when a request carries no override;
    /// `None` means entries do not expire.
    pub default_expiration: Option<u32>,
    /// Largest accepted request body, in bytes.
    pub max_value_size: usize,
}

impl QuiViveConfig {
    /// The dispatcher relies on a non-empty identifier alphabet; an empty one
    /// is a configuration error, fatal at startup.
    pub open spec fn wf(&self) -> bool {
        self.id_charset@.len() > 0
    }

    /// The built-in defaults: identifiers of 12 characters from the default
    /// alphabet, any custom identifier accepted, entries expiring after 24
    /// hours, bodies up to 1 MiB.
    pub fn new() -> (r: Self)
        ensures
            r.external_url@ == Seq::<char>::empty(),
            r.listener_url@ == Seq::<char>::empty(),
            r.redis_hostname is None,
            r.redis_password is None,
            r.cache_type is None,
            r.id_length == 12,
            r.id_charset@ == default_id_charset(),
            r.custom_id_format == CustomIdFormat::All,
            r.default_expiration == Some(86400u32),
            r.max_value_size == 1024 * 1024,
            r.wf(),
    {
        let charset = "23456789abcdefghjkimnpqrstuvwxyzABCDEFGHJKLMNPQRSTUVWXYZ";
        proof {
            reveal_strlit("23456789abcdefghjkimnpqrstuvwxyzABCDEFGHJKLMNPQRSTUVWXYZ");
        }
        QuiViveConfig {
            external_url: String::new(),
            listener_url: String::new(),
            redis_hostname: None,
            redis_password: None,
            cache_type: None,
            id_length: 12,
            id_charset: charset.to_owned(),
            custom_id_format: CustomIdFormat::All,
            default_expiration: Some(86400),
            max_value_size: 1024 * 1024,
        }
    }

    /// What a configured custom-id policy name means, compared without
    /// regard to ASCII case; an unrecognized name falls back to accepting
    /// everything.
    pub open spec fn spec_custom_id_format(s: Seq<char>) -> CustomIdFormat {
        if crate::text::eq_nocase(s, "none"@) {
            CustomIdFormat::RejectAll
        } else if crate::text::eq_nocase(s, "uuid"@) {
            CustomIdFormat::Uuid
        } else if crate::text::eq_nocase(s, "all"@) {
            CustomIdFormat::All
        } else {
            CustomIdFormat::All
        }
    }

    /// Interpret a configured custom-id policy name.
    pub fn parse_custom_id_format(s: &str) -> (r: CustomIdFormat)
        ensures
            r == Self::spec_custom_id_format(s@),
    {
        if crate::text::str_eq_nocase(s, "none") {
            CustomIdFormat::RejectAll
        } else if crate::text::str_eq_nocase(s, "uuid") {
            CustomIdFormat::Uuid
        } else if crate::text::str_eq_nocase(s, "all") {
            CustomIdFormat::All
        } else {
            CustomIdFormat::All
        }
    }

    /// A raw expiration value of `0` means "no expiration".
    pub fn normalize_expiration(raw: u32) -> (r: Option<u32>)
        ensures
            r == (if raw == 0 { Option::<u32>::None } else { Some(raw) }),
    {
        if raw == 0 {
            None
        } else {
            Some(raw)
        }
    }
}

} // verus!
