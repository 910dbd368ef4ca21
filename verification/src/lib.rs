//! Credential and session layer for a server-rendered application.
//!
//! The crate proves a visitor's identity from an email and a password,
//! keeps that proof in a session table with a sliding expiry, guards
//! protected pages, and carries one-shot messages across a redirect.
//!
//! The stores of this crate keep their rows in memory. Every step that a
//! handler takes is decided by a function that takes the outcome of the
//! step before as an argument, so that the same decisions serve a caller
//! that keeps its rows in a database.

pub mod auth_session;
pub mod backend;
pub mod cookie;
pub mod flash;
pub mod forms;
pub mod login;
pub mod messages;
pub mod navbar;
pub mod page;
pub mod password;
pub mod profile;
mod random;
pub mod register;
pub mod reply;
pub mod rows;
pub mod session_store;
pub mod site;
pub mod users;
