//! A load-generation and verification harness for a deterministic,
//! replicated ledger: it deploys a fixed chain of dependent programs,
//! floods the ledger with execution transactions generated across
//! workers, caches every expensive artifact on disk so repeated runs
//! resume instead of recomputing, and assembles the accumulated
//! transactions into one validated, committed block.

pub mod assemble;
pub mod cache;
pub mod config;
pub mod deploy;
pub mod env;
pub mod errors;
pub mod generate;
pub mod ledger;
pub mod naming;
pub mod partition;
pub mod pipeline;
