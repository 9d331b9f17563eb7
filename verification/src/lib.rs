//! Incremental synchronisation of a paginated, rate-limited reading-list
//! service into a relational store.
//!
//! The crate holds the rules of the synchronisation: how a record is decoded
//! and defaulted, how a request is addressed, how a response is classified and
//! retried, how a stored row is merged with a fetched one, and when the
//! watermark of a run may advance. Transport and persistence are performed by
//! the caller, which hands their outcomes to the functions here.

pub mod api;
pub mod db;
pub mod models;
pub mod sync;
pub mod timestamp;
