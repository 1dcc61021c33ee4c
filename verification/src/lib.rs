//! The decisions of a desktop task-list application.
//!
//! The state of the application is a [`app::Tasks`]. A [`message::Event`] changes it and leaves a
//! list of jobs: commands for the windowing, storage and network side, and follow-up work for
//! this library. [`runtime::Runtime`] keeps those jobs in the order in which they are due.

pub mod actions;
pub mod app;
pub mod config;
pub mod content;
pub mod details;
pub mod dialog;
pub mod effects;
pub mod faithful;
pub mod laws;
pub mod message;
pub mod model;
pub mod nav;
pub mod preferences;
pub mod runtime;
pub mod shown;
pub mod storage;
pub mod text;
pub mod ui;
pub mod views;
