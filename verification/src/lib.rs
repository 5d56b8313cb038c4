//! Backend building blocks: point-in-time consistent backup and restore
//! across the datastore and the cache, client IP resolution behind trusted
//! proxies, and a dead-letter-aware background job scheduler.

pub mod backup;
pub mod text;
pub mod ip_allowlist;
pub mod jobs;
