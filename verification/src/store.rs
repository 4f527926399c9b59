//! The entry store: an abstract TTL-capable key/value map the dispatcher
//! drives, with a verified in-process implementation.
//!
//! The store is modelled as a map from identifier to stored record, each
//! record carrying an optional absolute deadline. An entry whose deadline has
//! passed must never be returned by a lookup. A remote backend implements the
//! same interface outside the library; nothing is promised of it, which is
//! why every promise below is conditioned on `obeys_model`.

use vstd::prelude::*;
use vstd::hash_map::StringHashMap;

verus! {

/// The unit of storage: a payload (returned verbatim by key lookups) and a
/// redirect target (followed by URL lookups). An empty `url` marks an entry
/// as key-only; the generic lookup path uses that as its discriminator.
pub struct QuiViveEntry {
    /// The identifier the entry is stored under.
    pub id: String,
    /// Opaque payload; empty for pure redirect entries.
    pub val: String,
    /// Redirect target; empty for pure key entries.
    pub url: String,
}

/// Ghost shape of a stored record: the entry fields as character sequences,
/// and the absolute time (seconds) at which the record stops being visible.
pub struct RecordModel {
    pub id: Seq<char>,
    pub val: Seq<char>,
    pub url: Seq<char>,
    pub deadline: Option<u64>,
}

/// The deadline an insertion at time `now` with the given time-to-live
/// produces; no time-to-live means the record never expires.
pub open spec fn deadline_of(ttl: Option<u32>, now: u32) -> Option<u64> {
    match ttl {
        Option::None => Option::None,
        Some(t) => Some((now as u64 + t as u64) as u64),
    }
}

/// The record an insertion stores.
pub open spec fn record_of(entry: QuiViveEntry, ttl: Option<u32>, now: u32) -> RecordModel {
    RecordModel {
        id: entry.id@,
        val: entry.val@,
        url: entry.url@,
        deadline: deadline_of(ttl, now),
    }
}

/// Whether a record is still visible at time `now`.
pub open spec fn fresh_at(rec: RecordModel, now: u32) -> bool {
    match rec.deadline {
        Option::None => true,
        Some(d) => (now as u64) < d,
    }
}

/// What a lookup at time `now` yields: the record, unless it is absent or
/// expired.
pub open spec fn lookup(m: Map<Seq<char>, RecordModel>, key: Seq<char>, now: u32) -> Option<
    RecordModel,
> {
    if m.contains_key(key) && fresh_at(m[key], now) {
        Some(m[key])
    } else {
        Option::None
    }
}

/// Failure surfaced by a store backend; lookup misses are not errors.
#[derive(Debug)]
pub struct StoreError {
    pub message: String,
}

/// The store interface the dispatcher depends on. Implementations provide
/// their own internal synchronization; the dispatcher imposes none.
///
/// `obeys_model` says whether the implementation provably behaves like the
/// map model; it holds for the verified in-process store. For a remote
/// backend nothing can be proved, so its promises are vacuous, and callers
/// receive errors instead.
pub trait EntryStore: Sized {
    /// The abstract contents; meaningful where `obeys_model` holds.
    open spec fn model(&self) -> Map<Seq<char>, RecordModel> {
        Map::empty()
    }

    /// Whether the contracts below are in force for this implementation. An
    /// unverified backend leaves the default, which makes them vacuous.
    open spec fn obeys_model() -> bool {
        false
    }

    /// Store `entry` under `key`, overwriting any previous record, with the
    /// given time-to-live applied from time `now`.
    fn insert_with(&mut self, key: &String, entry: QuiViveEntry, ttl: Option<u32>, now: u32) -> (r:
        Result<(), StoreError>)
        ensures
            Self::obeys_model() ==> r is Ok && final(self).model() == old(self).model().insert(
                key@,
                record_of(entry, ttl, now),
            ),
    ;

    /// Fetch the record under `key`, unless absent or expired at time `now`.
    fn get(&self, key: &String, now: u32) -> (r: Result<Option<QuiViveEntry>, StoreError>)
        ensures
            Self::obeys_model() ==> match lookup(self.model(), key@, now) {
                Some(rec) => r matches Ok(Some(e)) && e.id@ == rec.id && e.val@ == rec.val
                    && e.url@ == rec.url,
                Option::None => r matches Ok(Option::None),
            },
    ;

    /// Remove the record under `key`; succeeds whether or not one exists.
    fn remove(&mut self, key: &String) -> (r: Result<(), StoreError>)
        ensures
            Self::obeys_model() ==> r is Ok && final(self).model() == old(self).model().remove(
                key@,
            ),
    ;
}

struct MemorySlot {
    entry: QuiViveEntry,
    deadline: Option<u64>,
}

/// The in-process store variant: an in-memory map with expiration enforced on
/// every read, so an expired entry is never returned.
pub struct MemoryStore {
    slots: StringHashMap<MemorySlot>,
}

spec fn slot_record(s: MemorySlot) -> RecordModel {
    RecordModel { id: s.entry.id@, val: s.entry.val@, url: s.entry.url@, deadline: s.deadline }
}

impl MemoryStore {
    /// An empty store.
    pub fn new() -> (r: Self)
        ensures
            r.model() == Map::<Seq<char>, RecordModel>::empty(),
    {
        let r = MemoryStore { slots: StringHashMap::new() };
        proof {
            assert(r.model() =~= Map::<Seq<char>, RecordModel>::empty());
        }
        r
    }
}

impl EntryStore for MemoryStore {
    closed spec fn model(&self) -> Map<Seq<char>, RecordModel> {
        Map::new(
            |k: Seq<char>| self.slots@.contains_key(k),
            |k: Seq<char>| slot_record(self.slots@[k]),
        )
    }

    open spec fn obeys_model() -> bool {
        true
    }

    fn insert_with(&mut self, key: &String, entry: QuiViveEntry, ttl: Option<u32>, now: u32) -> (r:
        Result<(), StoreError>)
    {
        let deadline: Option<u64> = match ttl {
            Option::None => Option::None,
            Some(t) => Some(now as u64 + t as u64),
        };
        self.slots.insert(key.clone(), MemorySlot { entry, deadline });
        proof {
            assert(self.model() =~= old(self).model().insert(
                key@,
                record_of(entry, ttl, now),
            ));
        }
        Ok(())
    }

    fn get(&self, key: &String, now: u32) -> (r: Result<Option<QuiViveEntry>, StoreError>) {
        match self.slots.get(key.as_str()) {
            Some(slot) => {
                let expired = match slot.deadline {
                    Some(d) => (now as u64) >= d,
                    Option::None => false,
                };
                if expired {
                    Ok(Option::None)
                } else {
                    Ok(
                        Some(
                            QuiViveEntry {
                                id: slot.entry.id.clone(),
                                val: slot.entry.val.clone(),
                                url: slot.entry.url.clone(),
                            },
                        ),
                    )
                }
            },
            Option::None => Ok(Option::None),
        }
    }

    fn remove(&mut self, key: &String) -> (r: Result<(), StoreError>) {
        self.slots.remove(key.as_str());
        proof {
            assert(self.model() =~= old(self).model().remove(key@));
        }
        Ok(())
    }
}

/// Which store backend the configuration selects.
#[derive(Clone, Copy, PartialEq, Eq, Structural, Debug)]
pub enum CacheKind {
    /// The in-process map.
    Memory,
    /// The remote cache service.
    Redis,
}

/// Which backend a configured name selects: absent means the in-process map,
/// anything but "memory" or "redis" is a configuration error (`None` here).
pub open spec fn spec_cache_kind(cache_type: Option<Seq<char>>) -> Option<CacheKind> {
    match cache_type {
        Option::None => Some(CacheKind::Memory),
        Some(s) => if s == "memory"@ {
            Some(CacheKind::Memory)
        } else if s == "redis"@ {
            Some(CacheKind::Redis)
        } else {
            Option::None
        },
    }
}

/// Interpret the configured backend name: absent means the in-process map,
/// anything but "memory" or "redis" is a configuration error.
pub fn select_cache_kind(cache_type: &Option<String>) -> (r: Result<CacheKind, StoreError>)
    ensures
        r matches Ok(k) ==> spec_cache_kind(crate::text::opt_view(*cache_type)) == Some(k),
        r is Err <==> spec_cache_kind(crate::text::opt_view(*cache_type)) is None,
        r matches Err(e) ==> e.message@ == "invalid cache type"@,
{
    proof {
        reveal_strlit("memory");
        reveal_strlit("redis");
    }
    match cache_type {
        Option::None => Ok(CacheKind::Memory),
        Some(s) => {
            if crate::text::str_eq(s.as_str(), "memory") {
                Ok(CacheKind::Memory)
            } else if crate::text::str_eq(s.as_str(), "redis") {
                Ok(CacheKind::Redis)
            } else {
                Err(StoreError { message: "invalid cache type".to_owned() })
            }
        },
    }
}

} // verus!
