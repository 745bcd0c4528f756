//! Which module a specifier of a guest leads to.
//!
//! Every guest has its own registry. It is built once from the bindings that the guest receives and
//! maps specifiers to private routes and routes to modules.

pub mod bindings;
pub mod guest;
pub mod laws;
pub mod routes;
pub mod state;

pub use bindings::{LibraryBinding, ModuleRegistration};
pub use guest::GuestRegistry;
pub use state::{ContextKey, GuestId, GuestRegistration, ModuleRegistry, RegistryState};
