//! Navigation and state engine of a terminal browser for a project's change
//! history: a scrollable list of change records, a detail view of one record
//! with its file changes, and a content view of one changed file.
//!
//! The engine does no input or output. A caller fetches records, renders the
//! content of files, draws and reads keys; it hands what it got to the
//! session ([`session::App`]) and does what the session asks for next
//! ([`session::Action`]). Before a frame is drawn the caller settles the
//! session for it ([`session::App::settle`]); drawing itself
//! ([`render::ui`]) only reads the session. What a session stands for, and how each step
//! changes it, is stated over [`session::Session`]; [`laws`] holds what
//! follows for the session as a whole.
//!
//! - [`cursor`]: selection cursors and the arithmetic of scrolling
//! - [`text`]: lines, searches and pieces of strings
//! - [`record`]: change records, their identifiers and statistics
//! - [`decor`]: branches and tags by the record they point at
//! - [`content`]: the rendered content of a file
//! - [`session`]: the session and its steps
//! - [`styled`], [`wrap`], [`layout`], [`render`]: what a frame shows
//! - [`args`]: the arguments of the browser

pub mod args;
pub mod content;
pub mod cursor;
pub mod decor;
pub mod laws;
pub mod layout;
pub mod record;
pub mod render;
pub mod session;
pub mod styled;
pub mod text;
pub mod wrap;
