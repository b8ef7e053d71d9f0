//! Rules of a service that polls space-data feeds, stores what they
//! deliver and serves it behind an admission gate: the retry policy of a
//! fetch, the addresses of the feeds, the store's append and upsert
//! semantics, the schedule of the polling jobs, the basis of the movement
//! trend, and the per-client request count.
pub mod calendar;
pub mod clients;
pub mod config;
pub mod domain;
pub mod handlers;
pub mod json;
pub mod middleware;
pub mod repo;
pub mod scheduler;
pub mod services;
pub mod text;
pub mod time;
pub mod validation;
