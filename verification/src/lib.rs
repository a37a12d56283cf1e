//! Snapshot inventory of audio endpoints: decoding of platform text buffers,
//! derivation of controller identifiers, record assembly and the traversal
//! protocol that a platform driver follows.

pub mod platform;
pub mod policy;
pub mod record;
pub mod report;
pub mod traversal;
pub mod wide;
