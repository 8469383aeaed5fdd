//! One-shot enumeration of attached USB devices, published as events on a channel.
//!
//! The native registry is driven from outside the library: an [`EnumerationSession`]
//! decides, from each registry answer, which native operation comes next, and
//! accounts for every native resource that is held.

pub mod device_info;
pub mod text;
pub mod session;
pub mod watcher;
