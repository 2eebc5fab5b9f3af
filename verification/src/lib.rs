//! Decision engine for a directory-hiding watcher.
//!
//! The library holds the verified logic of the tool: the matcher that decides
//! whether a filesystem entry should be hidden, the classifier that turns raw
//! change notifications into "a path just appeared" decisions, the sliding
//! window error breaker that guards the watch loop, the configuration
//! validation, and the planning half of the hide primitive. The surrounding
//! binary performs the filesystem work (walking, watching, renaming, setting
//! attributes) and feeds plain values in and out of these functions.

pub mod breaker;
pub mod casefold;
pub mod config;
pub mod events;
pub mod hiding;
pub mod matcher;
