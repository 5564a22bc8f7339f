//! Core of a hex viewer: grid layout of a file's bytes, a bounded row cache,
//! byte-wise cursor navigation, and the session that keeps them consistent.
pub mod geometry;
pub mod cursor;
pub mod cache;
pub mod source;
pub mod session;
