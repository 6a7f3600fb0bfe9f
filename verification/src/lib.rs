//! A minimal SNTP client core: the wire codec, the fixed-point clock
//! conversions, the delay/offset arithmetic, the retry state machine and the
//! safety gate that stands before any clock write.
pub mod clock;
pub mod error;
pub mod gate;
pub mod offset;
pub mod policy;
pub mod query;
pub mod timestamp;
pub mod wire;
