//! Container adapters built by composing two simpler containers, together
//! with a few small value types: checksum hashers and a money amount.

/// A stack that reports the minimum of its elements in constant time.
pub mod min_stack;
/// Containers built from other containers.
pub mod collections;
/// A queue implemented with two stacks.
pub mod queue_with_stack;
/// Checksums over bytes.
pub mod crypto;
/// Amounts of money.
pub mod money;
