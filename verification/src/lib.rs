//! Request handling rules of the ReedStreams back end: viewer counting,
//! authentication header parsing, account and profile checks, chat paging
//! and source synchronisation, all as verified functions over plain values.

pub mod accounts;
pub mod admin;
pub mod chat;
pub mod errors;
pub mod headers;
pub mod ids;
pub mod models;
pub mod profiles;
pub mod session;
pub mod sources;
pub mod text;
pub mod viewers;
pub mod views;
