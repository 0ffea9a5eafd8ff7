//! Message-driven engine of a terminal client for iteration stories and
//! epics: the model, the messages and commands, the update step, the focus
//! chain of panes and the reconciliation of cached and fetched data.

pub mod app;
pub mod block;
pub mod cache;
pub mod config;
pub mod domain;
pub mod error;
pub mod gh_cli;
pub mod keys;
pub mod notes;
pub mod pane;
pub mod text;
pub mod view;
pub mod worktree;
