//! The engine: model, messages, commands and the update step.

pub mod cmd;
pub mod description_modal;
pub mod model;
pub mod msg;
pub mod epic_pane;
pub mod story_list;
pub mod update;
