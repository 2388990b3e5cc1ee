//! Decision core of an NFT metadata crawler: decoding of queue messages and
//! the per-entry parse state machine that drives JSON, image and animation work.
pub mod config;
pub mod entry;
pub mod laws;
pub mod record;
pub mod worker;

pub use config::ParserConfig;
pub use entry::{choose_timestamp, decode_entry, parse_i32, parse_timestamp, split_fields, DecodeError, Timestamp, WorkItem};
pub use record::UriRecord;
pub use worker::{Action, Event, JsonOutput, Lookup, MediaOutput, Phase, Stage, Stored, Worker};
