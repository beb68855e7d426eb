//! A typed front for the browser's two key-value storages, `localStorage` and
//! `sessionStorage`.
//!
//! Nothing is cached: every operation opens the storage anew and asks the host.
//! A host failure never escapes as a foreign value and never panics: each
//! operation returns a [`failure::Failure`], and the caller decides how to
//! abort.

pub mod failure;
pub mod host;
pub mod handle;
pub mod cursor;
pub mod namespace;
pub mod local;
pub mod session;
