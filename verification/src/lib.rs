//! Lifecycle control for one supervised helper process, together with the
//! configuration model and the command planning that surround it.
//!
//! The supervisor, the path resolver, the resource guard and the status
//! watcher decide; spawning, probing, signalling and sleeping are left to
//! the caller, who reports back what the operating system answered.

pub mod commands;
pub mod config;
pub mod context;
pub mod dispatch;
pub mod document;
pub mod error;
pub mod failure;
pub mod guard;
pub mod keys;
pub mod launch;
pub mod laws;
pub mod open_folder;
pub mod ordered;
pub mod platform;
pub mod processes;
pub mod resolver;
pub mod save;
pub mod screenshot;
pub mod search;
pub mod settings;
pub mod sorting;
pub mod supervisor;
pub mod switch_app;
pub mod text;
pub mod timestamp;
pub mod toast;
pub mod tray;
pub mod uinput;
pub mod validate;
pub mod watcher;
