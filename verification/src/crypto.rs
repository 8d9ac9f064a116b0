//! Checksums over bytes, each computed one byte at a time from a state
//! that a seed sets.

/// The Adler-32 checksum.
pub mod adler;
/// The Fowler-Noll-Vo hash, in 32 and 64 bits.
pub mod fnv;
