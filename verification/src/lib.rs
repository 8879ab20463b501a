//! Decisions of a small catalog service for operating-system images.
//!
//! The service answers two questions over a key-value store: which images
//! exist for an operating system, and where a given image can be downloaded.
//! A key of the store is the name of an operating system, a hyphen and the
//! name of an image. Beside each key the store holds metadata for the
//! listing, and under it the download address or the reason why there is
//! none.
//!
//! This crate holds every decision the service makes, as functions from plain
//! values to plain values, each with a proved contract. Reading the request,
//! talking to the store and writing the response are left to the caller, so
//! each request is served in two steps with the store between them:
//!
//! - [`listing::list`] says what to scan the store for, and
//!   [`listing::list_found`] answers with what the scan returned;
//! - [`download::download_redirect`] says which key to read, and
//!   [`download::download_redirect_found`] answers with what was read.
//!
//! [`laws`] states what holds of the two steps, and of the two requests,
//! taken together.

pub mod catalog;
pub mod download;
pub mod laws;
pub mod listing;
pub mod reply;
pub mod text;
