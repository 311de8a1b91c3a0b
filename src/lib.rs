//! Ingestion, deduplication, dispatch and settlement rules for bridging
//! transfer requests from a message stream into ERC20 token transfers.

pub mod text;
pub mod model;
pub mod schema;
pub mod setting;
pub mod error;
pub mod chain;
pub mod ledger;
pub mod ingest;
