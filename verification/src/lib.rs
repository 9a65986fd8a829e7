//! The request-independent logic of the Wallet Live portfolio service:
//! user identities and authentication decisions, the admin check,
//! error classification, the keyword-driven chat assistant and its
//! per-user conversation log, and the page selection of the front end.
//! I/O (HTTP, the database, templates, charts) lives in the application
//! crate, which hands this library plain values.

pub mod admin;
pub mod assets;
pub mod chat;
pub mod error;
pub mod laws;
pub mod models;
pub mod pages;
pub mod text;
pub mod user;

