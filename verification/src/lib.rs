//! Table-of-contents extraction for rendered notes, and what stands around it.
//!
//! A note is written in markdown, rendered to HTML and sanitized. From the
//! sanitized HTML this crate extracts the headings (and, in a second form, the
//! block elements) by folding a small state machine over the tokens that the
//! HTML tokenizer reports. Beside the extractors stand the rules of the server
//! (its configuration, its users, where a note lies and what it is served as)
//! and the client core, which decides what to fetch and what to show.

pub mod api;
pub mod app;
pub mod auth;
pub mod effect;
pub mod nodes;
pub mod note;
pub mod outline;
pub mod pattern;
pub mod render;
pub mod settings;
pub mod sidebar;
pub mod text;
pub mod toc;
pub mod token;
pub mod users;
pub mod validate;
