//! Core library of a desktop book-reader application.
//!
//! The heart of the crate is a verified schema-migration engine: a catalog of
//! versioned migration steps, a version utility that normalizes and orders
//! free-form version strings, and a runner that moves a store forward or
//! backward through the catalog while keeping the stored version marker
//! consistent with the steps that actually ran.  Around it stand the plain
//! data models of the application (configuration, books, metadata) and the
//! pure decision logic that the I/O shell drives.

pub mod text;
pub mod version;
pub mod errors;
pub mod catalog;
pub mod store;
pub mod memory;
pub mod runner;
pub mod state;
pub mod config;
pub mod status;
pub mod books;
pub mod cache;
pub mod sqlite;
pub mod d1;
pub mod local;
pub mod metadata;
pub mod resolve;
