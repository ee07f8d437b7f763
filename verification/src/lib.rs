//! Contile core: a verified library for a privacy-preserving tile service.
//!
//! The library models the two subsystems that carry the engineering risk of
//! the service: the tile validation and filtering pipeline (an advertiser
//! filter with host allowlists, query-parameter rules and `DEFAULT`
//! fallbacks), and the audience-keyed tile cache with single-flight
//! population and soft-expiry refresh. Around them stand the pieces the
//! pipeline needs: upstream query construction, response serialization,
//! request normalization and TTL jitter.
//!
//! I/O (the HTTP front door, the upstream fetch, the image store and the
//! telemetry sinks) stays outside; the library computes every decision from
//! plain values and states it in contracts.

pub mod cache;
pub mod error;
pub mod extractors;
pub mod filter;
pub mod handlers;
pub mod jsonfmt;
pub mod settings;
pub mod tags;
pub mod text;
pub mod tiles;
pub mod urls;
