//! Read-performance benchmark for storage devices and filesystems: the
//! seeded byte source, the shard arithmetic of the parallel generator, the
//! corpus build plan, the offsets each probe reads, and the result rows with
//! their CSV encoding, each with a verified contract.

pub mod byte_source;
pub mod layout;
pub mod probes;
pub mod text;
pub mod corpus;
pub mod bench;
pub mod record;
pub mod cli;
