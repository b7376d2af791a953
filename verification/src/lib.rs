//! Verified core of a text-transformation pipeline driven by sandboxed
//! plugins that run inside a WebAssembly virtual machine.
//!
//! The host assembles an ordered list of plugins, feeds an input string
//! through them, and prints the final result.  The heart of the crate is the
//! host-plugin boundary: the shared-memory protocol between host and guest,
//! the result-buffer layout that the host parses defensively, the plugin
//! loader, and the invocation sequence that keeps buffer lifetimes balanced
//! on success and failure alike.

pub mod errors;
pub mod guest;
pub mod host;
pub mod layout;
pub mod loopback;
pub mod pipeline;
pub mod rainbow;
pub mod resolver;
pub mod text;
