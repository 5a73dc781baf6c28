//! The host side of sandboxed detection plugins.
//!
//! A plugin is a WebAssembly component that looks at an HTTP request and decides on it. It runs in
//! a sandbox, and everything that it learns or reaches it learns or reaches through the host. This
//! library is the host's part in that: what a plugin is shown, what it may reach, what becomes of
//! the calls that it makes, and what the host learns of its decision. Running the component,
//! sending requests and talking to Redis are left to whoever uses the library.
pub mod call_effects;
pub mod context;
pub mod decision;
pub mod effects;
pub mod instance;
pub mod interface;
pub mod json;
pub mod laws;
pub mod outbound;
pub mod permissions;
pub mod plugin;
pub mod refusal;
pub mod remote;
pub mod scripts;
pub mod wasm;
