//! The decisions of a benchmark that writes many near-identical commit objects
//! into a repository's object store: which identifier to resolve, what each new
//! commit holds, what its message says, and when the run is over.

pub mod commit;
pub mod config;
pub mod decimal;
pub mod failure;
pub mod message;
pub mod oid;
pub mod run;
pub mod trace;
