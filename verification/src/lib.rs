//! Fetch-validate-cache pipeline for embedding remote resources at build time.
//!
//! A resource is fetched once and stored under a name derived from the
//! consuming build unit, the URL and the encoding. Every later request with
//! the same three inputs is served from the stored entry.
//!
//! - [`resource`] checks a URL before anything is sent.
//! - [`key`] derives the name of an entry; [`hex`] writes it out.
//! - [`codec`] turns fetched bytes into stored bytes and back.
//! - [`store`] decides, step by step, what is looked up, fetched and written.
//! - [`validator`] checks that content is well-formed JSON.
//! - [`model`] states what whole requests guarantee.
//! - [`error`] names what can go wrong.

pub mod codec;
pub mod encoding;
pub mod error;
pub mod hex;
pub mod key;
pub mod model;
pub mod resource;
pub mod store;
pub mod validator;
