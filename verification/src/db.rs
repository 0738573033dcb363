//! The catalog of tracks, albums, artists and track groups, and the rules by which a
//! scanned track finds its rows.

pub mod database;
pub mod laws;
pub mod listing;
pub mod model;
pub mod policy;
pub mod stats;
pub mod store;
