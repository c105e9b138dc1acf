//! An FFI-friendly null-terminated byte string.
//!
//! A [`UnixString`] owns a growable byte buffer that always holds exactly one
//! zero byte, located at the buffer's final position.  The invariant is
//! established by every constructor and preserved by every mutation, so the
//! buffer can be handed to native APIs expecting a C-style string at any time
//! without a conversion step.

mod error;
mod from;
pub mod interop;
pub mod memchr;
mod partial_eq;
mod try_from;
pub mod unix_string;

pub use error::Error;
pub use memchr::find_nul_byte;
pub use memchr::memchr;
pub use unix_string::validate_bytes;
pub use unix_string::UnixString;
