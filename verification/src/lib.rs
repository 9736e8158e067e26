//! Safe lifecycle management for a native X11 cursor-loading context.
//!
//! An X11 client maps symbolic cursor names such as `left_ptr` or `watch`
//! to server-side cursor resource ids through a small native resolver
//! library. This crate holds the verified core of a wrapper around that
//! resolver: the catalogue of standard cursor names with their canonical
//! renderings, the screen-attribute snapshot handed to the native
//! constructor, the null-terminated encoding of cursor names, and the
//! decisions that turn raw native results (a status code and a possibly
//! null handle, or a raw resource id) into owned values or explicit
//! errors.
//!
//! The native calls themselves, which Verus cannot check, live in a thin
//! unverified layer around this crate; every decision that layer takes is
//! a verified function here.

mod context;
mod cursor;
mod screen;

pub use context::ConstructionError;
pub use context::CursorContext;
pub use context::CursorHandle;
pub use context::LookupError;
pub use context::CURSOR_NONE;
pub use context::encode_cursor_name;
pub use cursor::Cursor;
pub use screen::ScreenAttributes;
pub use screen::ScreenSnapshot;
