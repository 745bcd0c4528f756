//! What the operations of the library do, told by what goes into them and what comes out.

pub mod array;
pub mod class;
pub mod errors;
pub mod execution;
pub mod handle;
pub mod host;
pub mod host_registry;
pub mod kind;
pub mod llrt;
pub mod marshal;
pub mod modules;
pub mod native;
pub mod registry;
pub mod runtime;
pub mod state;
pub mod streams;
pub mod text;
pub mod transpiler;
