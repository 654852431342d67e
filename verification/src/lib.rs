//! A host adapter for an embeddable line-oriented interpreter: a tiered
//! virtual file system, an in-memory output sink with diagnostic range
//! tagging, and assembly of interpreter outcomes into one structured result.

pub mod embedded;
pub mod fs;
pub mod sink;
pub mod text;
pub mod backtrace;
pub mod outcome;
