//! Automation of a third-party window tree: snapshot discovery, path lookup,
//! a refresh-bounded cache, the wait step and the drag-probe gesture.

pub mod cache;
pub mod discovery;
pub mod drag;
pub mod sequencer;
pub mod snapshot;
pub mod text;
pub mod tree;
pub mod wait;

pub use cache::RefreshCache;
pub use tree::{Click, Found, GetFound, Text, WindowHandle};
