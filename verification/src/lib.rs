//! A library for a terminal viewer over a SQLite database: it models the
//! table list, the navigation state (active tab and scroll offset), the
//! row-snapshot rendering, and the decisions of the polling loop.

pub mod app;
pub mod db;
pub mod text;
