//! Secure bootstrap of a sandboxed module host: manifest verification,
//! policy approval, provider loading and the registry they publish to.

pub mod bootstrap;
pub mod claims;
pub mod loader;
pub mod manifest;
pub mod policy;
pub mod registry;
pub mod text;
pub mod traces;
