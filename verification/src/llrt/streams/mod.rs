//! Web Streams interop.

pub mod readable;
pub mod transform;
pub mod writable;

pub use readable::{HostReadableStream, Polled, Reader};
pub use writable::{HostWritableStream, Writer};
