//! Containers built from other containers.

/// A stack built from two queues.
pub mod stack_with_queue;
