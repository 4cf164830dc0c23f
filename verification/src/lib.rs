//! Verified core of a reader and archiver for Medium posts: the data model,
//! path and URL computations, cache decisions, crawl scheduling, storage row
//! mapping and request routing rules.

pub mod paths;
pub mod types;
pub mod crawler;
pub mod persistence;
pub mod cache;
pub mod connectors;
pub mod routes;
pub mod text;
pub mod templates;
