//! Incremental, resumable harvesting of numbered catalog entities.
//!
//! The library holds the decisions of the crawl as verified state machines:
//! the key encoding of the checkpoint store, the frontier search, the retry
//! and classification of each fetch, the checkpoint facts and their
//! invariants, the bounded pipelines, the naming of cover files, and the
//! per-kind sequence of discovery, records and covers. The caller performs
//! the network and disk work that each decision asks for.

pub mod checkpoint;
pub mod config;
pub mod cover;
pub mod fetch;
pub mod frontier;
pub mod keys;
pub mod kind;
pub mod orchestrator;
pub mod pipeline;
pub mod record;

pub use checkpoint::Checkpoint;
pub use config::Config;
pub use cover::{plan_cover, CoverOutcome, CoverPlan};
pub use fetch::{classify_status, FetchAction, FetchAttempt, FetchEvent, FetchOutcome, ResponseClass};
pub use frontier::{FrontierAction, FrontierSearch, ProbeOutcome};
pub use keys::{decode_id, encode_id};
pub use kind::EntityKind;
pub use orchestrator::{CrawlStage, CrawlStep, KindCrawl};
pub use pipeline::{Batch, CoverPipeline, FetchPipeline, TableWrite};
pub use record::{empty2none, Album, Book, Cover, Movie};
