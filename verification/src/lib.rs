//! The decisions behind the root of a reactive web interface: which device
//! class a user agent belongs to, how the `--leptonic-vh` custom property
//! follows the window's inner height, and what is wired up when the root is
//! mounted.
//!
//! Nothing here touches a browser. The host performs the lookups and writes,
//! and hands what it saw to this crate as plain values.

pub mod device;
pub mod mount;
pub mod viewport;
