//! Core engine of a terminal database client: text input and completion,
//! a multi-line SQL editor, a database tree sidebar, a tab panel, record
//! grids with pagination, and the message bus that ties them together.
//! Database and terminal I/O live outside; the engine works on plain data.

pub mod app;
pub mod components;
pub mod config;
pub mod database;
pub mod dbtree;
pub mod err;
pub mod event;
pub mod saturating_types;
pub mod sql_utils;
pub mod strutil;
pub mod ui;
