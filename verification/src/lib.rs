//! A collection of small verified Rust components, built around a
//! line-oriented text search utility (`search`): given a query and a block
//! of content, return the lines that contain the query, either exactly or
//! case-insensitively, together with the configuration type that selects
//! between the two modes.
//!
//! The remaining modules are compact, self-contained illustrations of
//! common Rust patterns (generics, traits, smart pointers, state machines
//! encoded in types), each carried with full functional contracts.

pub mod blog;
pub mod boxes;
pub mod coins;
pub mod config;
pub mod first_word;
pub mod generics;
pub mod gui;
pub mod iterators;
pub mod lifetimes;
pub mod limit_tracker;
pub mod messages;
pub mod rc_list;
pub mod rectangle;
pub mod restaurant;
pub mod search;
pub mod seq_facts;
pub mod shoes;
pub mod summaries;
