//! A verified core for negotiating a GPU presentation context.
//!
//! The library covers the decision logic of context setup: picking a physical
//! device and a pair of queue families, negotiating a swap configuration
//! (surface format, present mode, extent, image count, sharing mode), and
//! tracking the lifetime of acquired native handles so that each one is
//! destroyed exactly once, in reverse dependency order.  All driver and
//! window-system calls stay outside the library; callers hand in the plain
//! values those calls produced and perform the actions the library decides on.

pub mod builder;
pub mod cleanup;
pub mod diagnostics;
pub mod errors;
pub mod handle;
pub mod select;
pub mod swapchain;
