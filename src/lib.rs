//! Persistence layer for a small task list: tasks that reference categories,
//! a snapshot model with its invariants, the in-memory operations that every
//! storage handle performs between one `load` and one `save`, the row codec of
//! the relational backend, the schema migration planner, configuration
//! settings and the command-line grammar.

pub mod backend;
pub mod categories;
pub mod cli;
pub mod config;
pub mod migrations;
pub mod models;
pub mod paths;
pub mod sqlite;
pub mod storage;
pub mod text;
pub mod time;
