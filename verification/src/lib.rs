//! The core of a terminal hex editor: a buffer of byte tokens, a cursor,
//! a two-digit input accumulator and the session that ties them together.
//!
//! Everything here is pure state manipulation. Reading keys, writing the
//! file and painting the screen are left to the program around the library.

pub mod accumulator;
pub mod buffer;
pub mod cursor;
pub mod hex;
pub mod session;
pub mod snapshot;
