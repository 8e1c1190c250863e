//! Byte-level security event monitoring with a forensic chain of custody.
//!
//! The library holds the verified core of the sentinel: the 16-byte event
//! wire format with its CRC-32, the fixed-size event ring buffer, the
//! SHA-256 custody chain, the DNP3 frame parser and the error taxonomy.

pub mod error;
pub mod le;
pub mod event;
pub mod ring;
pub mod custody;
pub mod probe;
pub mod device;
pub mod sentinel;
