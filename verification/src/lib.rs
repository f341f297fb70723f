//! Core logic of a small command-line file downloader.
//!
//! The library decides; its caller does the outside work. A download goes
//! through these steps:
//!
//! 1. [`request::Request::new`] validates the target.
//! 2. The caller sends the request and hands the status and the header
//!    values to [`header::ResponseMeta::from_headers`].
//! 3. [`session::after_send`] starts the [`transfer::Transfer`], or stops.
//! 4. The caller reads the body, at most [`transfer::Transfer::read_limit`]
//!    bytes at a time, and hands each read to [`session::after_read`].
//! 5. When the body has ended the caller writes the [`transfer::Output`] and
//!    hands the result to [`session::after_write`].

pub mod chunk;
pub mod error;
pub mod filename;
pub mod header;
pub mod notice;
pub mod progress;
pub mod request;
pub mod session;
pub mod transfer;
pub mod verbosity;
