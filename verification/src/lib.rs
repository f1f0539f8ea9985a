//! Clipboard preview core: change detection by fingerprint, preview payloads,
//! thumbnail encoding and the decisions of the clipboard monitor.

pub mod clip;
pub mod fingerprint;
pub mod preview;
pub mod codec;
pub mod thumbnail;
pub mod payload;
pub mod monitor;
pub mod controls;
