//! A library for watching recent match results of tracked players.
//!
//! The crate covers the retrieval-and-projection pipeline of the
//! application: the two-hop match lookup against the remote match API,
//! the projection of a raw match record into a per-player view, and the
//! reference-data cache that maps item and hero ids to display names
//! and is persisted between runs.  Network and file transport live in
//! the surrounding application; this crate holds the decisions, data
//! shapes and formatting, each with a verified contract.

pub mod text;
pub mod error;
pub mod matches;
pub mod calendar;
pub mod constant;
pub mod mapper;
pub mod courier;
pub mod storage;
pub mod cache;
pub mod hero;
pub mod setting;
pub mod panel;
