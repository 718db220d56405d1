//! Resource acquisition and service composition for a chain indexer: the
//! error taxonomy, a bounded exponential retry schedule, the lending ledger
//! of a bounded connection pool, and the state machine that assembles the
//! JSON-RPC server from its capability modules.

pub mod error;
pub mod retry;
pub mod pool;
pub mod server;
