//! A polyglot execution dispatcher: it takes a language tag, a program and
//! its input, and decides step by step how the program is written to
//! scratch files, compiled and run, how each failure is classed, and which
//! scratch resources are released at the end. A driver performs each action
//! and reports back what happened.

pub mod api;
pub mod config;
pub mod dispatch;
pub mod error;
pub mod language;
pub mod laws;
pub mod process;
pub mod strategy;
pub mod text;
