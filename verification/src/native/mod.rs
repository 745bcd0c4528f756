//! Native guest capabilities.

pub mod initializer;
pub mod library;
pub mod module;

pub use initializer::NativeInitializer;
pub use library::{NativeLibrary, NativeLibraryEntry};
pub use module::{NativeModule, NativeModuleView};
