//! Native host layer of a multi-tab browser shell.
//!
//! The window toolkit owns the embedded webviews; this crate holds the
//! deterministic part of the host: normalizing user-entered addresses into
//! navigable URLs, deriving the string label that keys each tab's webview,
//! and planning which webviews a tab switch shows or hides.

pub mod commands;
pub mod label;
pub mod normalize;
pub mod text;
