//! Verified core of a terminal browser for Redis keyspaces: key classification,
//! text formatting, panel state machines and the application's input handling.

pub mod app;
pub mod config;
pub mod focus;
pub mod formatting;
pub mod keyboard;
pub mod keyspace;
pub mod models;
pub mod text;
pub mod views;
