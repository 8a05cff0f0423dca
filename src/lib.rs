//! A lock-protected text console over an opaque framebuffer rendering engine.
//!
//! The engine itself is driven by the embedding program: every operation on a
//! [`FlantermContext`] records the engine call it stands for, and the program
//! performs those calls in order, inside the same critical section when the
//! handle sits in the [`FlantermRegistry`].
//!
//! Recorded calls and their byte strings live in `Vec`s, so this layer needs
//! an allocator, while the engine keeps its own memory.
pub mod ansi;
pub mod context;
pub mod global;
pub mod registry;

pub use context::{EngineCommand, FlantermContext};
pub use global::FlantermRegistry;
pub use registry::{_print, init_global_flanterm, with_global_flanterm, GlobalFlantermState};
