//! Ephemeral key/value and URL-redirection service core.
//!
//! Clients store a payload or a destination URL and receive a short
//! identifier; a later lookup resolves the identifier back to the payload or
//! to a redirect. This crate holds the verified core: configuration defaults,
//! identifier generation, the TTL-aware entry store, and the request
//! dispatcher. Process wiring (HTTP listener, signal handling, configuration
//! sources) lives outside the library.

pub mod config;
pub mod laws;
pub mod shutdown;
pub mod service;
pub mod store;
pub mod text;

pub use config::CustomIdFormat;
pub use config::QuiViveConfig;
pub use service::Method;
pub use service::Op;
pub use service::QuiViveService;
pub use service::Request;
pub use service::Response;
pub use service::get_timestamp;
pub use shutdown::ShutdownSignal;
pub use store::CacheKind;
pub use store::EntryStore;
pub use store::MemoryStore;
pub use store::QuiViveEntry;
pub use store::StoreError;
