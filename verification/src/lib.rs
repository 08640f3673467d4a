//! Verified core of a concurrent, multi-source artifact fetcher.
//!
//! The heart of the crate is the download subsystem: checksum parsing and
//! validation, per-entry fetch state machines and the batch manager that
//! schedules them.  Around it stand small verified models of the data the
//! surrounding tooling works with: repository source entries, topics,
//! unmet-dependency reports and history operations.

pub mod checksum;
pub mod download;
pub mod history;
pub mod hexcode;
pub mod manager;
pub mod progress;
pub mod refresh;
pub mod single;
pub mod strutil;
pub mod topics;
pub mod unmet;
