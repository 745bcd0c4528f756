//! Guest JavaScript modules in a host: the registry of the modules that a guest may import, the
//! definitions of host modules, classes and objects, the limits on guest executions, conversions
//! across the boundary, and the rules of streams between host and guest.

pub mod errors;
pub mod execution;
pub mod handle;
pub mod host;
pub mod laws;
pub mod llrt;
pub mod marshal;
pub mod names;
pub mod native;
mod outside;
pub mod registry;
pub mod runtime;
pub mod sequences;
pub mod steps;
pub mod text;
pub mod transpiler;
