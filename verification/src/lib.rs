//! Startup-configuration resolution for a blockchain node.
//!
//! A partially specified configuration document is merged, field by field,
//! with environment-variable overrides, dynamic defaults (free-port probing)
//! and static defaults; fields without a safe default are enforced as
//! required. The fully resolved tree is rendered back into a canonical
//! textual document.

pub mod value;
pub mod ports;
pub mod defaults;
pub mod doc;
pub mod tree;
pub mod resolve;
pub mod render;
pub mod laws;
