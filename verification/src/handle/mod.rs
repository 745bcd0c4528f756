//! Handles to guest values.

pub mod array;
pub mod awaitable;
pub mod kind;
pub mod owned;
pub mod scoped;

pub use array::{Cursor, CursorError, SeekTarget, TypedArrayElement};
pub use awaitable::Awaited;
pub use kind::HandleKind;
pub use owned::{Bound, Owned};
pub use scoped::Scoped;
