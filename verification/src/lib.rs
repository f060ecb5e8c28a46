//! A verified core for loading, inspecting, mutating, and re-saving
//! hierarchical scene trees stored in XML place and model files.
//!
//! The library owns the instance-tree data structure (an arena of nodes
//! addressed by identity), the shared lock-guarded handle that scripting
//! code keeps across calls, and the extension-dispatch and root-selection
//! policy that differs between place and model files. The XML grammar
//! itself belongs to an outside codec crate and is reached only through a
//! small set of trusted wrappers.

pub mod codec;
pub mod error;
pub mod handle;
pub mod pipeline;
pub mod router;
pub mod tree;
