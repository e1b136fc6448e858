//! Identity check for a large game image: a streamed MD5 fingerprint, a test
//! against fingerprints known to cause desynchronisation, and a write-once slot
//! that publishes the result.
pub mod classify;
pub mod digest;
pub mod hex;
pub mod slot;
pub mod task;
