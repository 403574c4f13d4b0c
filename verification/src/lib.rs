//! A security-audit core for compiled binary modules: content identity by
//! cryptographic digest, aggregation of analyzer findings into one severity
//! verdict, a deterministic fallback narrative when the generative backend
//! is unavailable, and an in-memory audit registry indexed by requester and
//! by audited target.
pub mod analysis;
pub mod backend;
pub mod counter;
pub mod identity;
pub mod narrative;
pub mod registry;
pub mod text;
pub mod types;
