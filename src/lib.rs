//! Clipboard history and screen capture: the verified core.
//!
//! The library holds the content store with its retention rules, the
//! clipboard monitor's decisions, and the capture/encode/thumbnail image
//! pipeline. Display, clipboard and disk access live with the caller.

pub mod config;
pub mod hotkeys;
pub mod imaging;
pub mod labels;
pub mod model;
pub mod monitor;
pub mod restore;
pub mod store;
