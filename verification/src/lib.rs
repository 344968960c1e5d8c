//! Exceptions for async Rust without `panic`: a context records a thrown
//! exception, and the catching poll hands it back as an `Err`.
//!
//! This crate holds the decisions of the exception contexts as verified state
//! machines. The unsync context counts how many catching polls are running and
//! keeps the latest exception; the sync context moves through
//! `NoException -> Throwing -> Thrown -> Moved` and lets the exception out once.
pub mod outcome;
pub mod sync;
pub mod unsync;
