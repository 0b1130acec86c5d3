//! A small message board: form and query decoding, page and JSON rendering,
//! and the per-request decisions of the HTTP handler.
pub mod text;
pub mod models;
pub mod form;
pub mod render;
pub mod service;
