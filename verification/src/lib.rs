//! Client-side core of a command-line tool for a remote object-storage
//! service: credential handling, HMAC-based URL signing, typed request
//! construction and response interpretation.
//!
//! Network transport, argument parsing and terminal output live outside this
//! library; everything here is pure logic over plain values, verified with
//! Verus. Calls into outside crates (HMAC, URL parsing, JSON parsing) stand
//! behind small trusted wrappers whose contracts name what those crates
//! compute.

pub mod account;
pub mod client;
pub mod data;
pub mod encode;
pub mod error;
pub mod ops;
pub mod querystr;
pub mod sign;
