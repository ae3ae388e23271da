//! Verified core of a periodic ledger worker.
//!
//! On each tick the worker selects one task, may fetch external data,
//! parses it into fixed-point prices, records results in bounded FIFO
//! windows inside the ledger state, coordinates fetches across isolated
//! invocations through a durable cache-and-lock, and submits results back
//! through a three-tier transaction gateway whose admission predicate the
//! ledger's validators run.

pub mod cache;
pub mod codec;
pub mod crypto;
pub mod dispatch;
pub mod errors;
pub mod extract;
pub mod fetcher;
pub mod gateway;
pub mod ledger;
pub mod parser;
pub mod payload;
pub mod window;
pub mod worker;
