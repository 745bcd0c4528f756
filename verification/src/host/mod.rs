//! Host capabilities exposed to guest code.

pub mod args;
pub mod callable;
pub mod class;
pub mod deferred;
pub mod initializer;
pub mod library;
pub mod loader;
pub mod module;
pub mod namespace;
pub mod object;
pub mod registry;

pub use args::Args;
pub use callable::{CallableBody, HostFn};
pub use class::{ClassSpec, HostClass, WellKnownSymbol};
pub use deferred::Deferred;
pub use initializer::HostInitializer;
pub use library::{HostLibrary, HostLibraryEntry};
pub use module::{Exports, HostModule, HostModuleAdapter};
pub use namespace::{Member, MemberView, Namespace};
pub use object::HostObject;
