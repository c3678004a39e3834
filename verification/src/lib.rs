//! Core library of a terminal client for a personal budgeting service.
//!
//! The library holds the verified heart of the application: the screen, tab
//! and modal state machine, the per-entity form drafts with their validation
//! rules, the in-memory resource caches with their derived views, and the
//! pure parts of the HTTP resource client (paths, query strings, and the
//! mapping from status codes to the error taxonomy). Terminal I/O, the HTTP
//! transport and the rendering layer live outside and drive this library
//! through plain values.

pub mod money;
pub mod strutil;
pub mod models;
pub mod state;
pub mod forms;
pub mod config;
pub mod client;
pub mod color;
pub mod dispatch;
