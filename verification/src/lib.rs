//! A safety layer for chains of derived device resources.
//!
//! A native device library hands out opaque handles: a device connection, a
//! protocol client derived from it, a service descriptor derived from that
//! client, and feature clients derived from the descriptor.  The native
//! library enforces no ownership across this chain: freeing an ancestor while
//! a descendant is still held leads to undefined behavior on the descendant's
//! next use.
//!
//! This crate tracks the validity of every resource in such a chain.  Each
//! resource owns a cell that either holds a snapshot of its descriptor or
//! nothing ("freed").  A descendant may obtain a snapshot only through
//! `check`, which validates every ancestor first, and teardown goes through
//! `invalidate`, which clears only the resource's own cell; descendants
//! discover the break lazily on their next `check`.  An attempt to use a
//! broken chain fails with the one error of this layer, `Invalidated`,
//! instead of corrupting memory.

pub mod idevice;
pub mod memory_lock;
pub mod services;
