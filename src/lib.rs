//! State machine of an interactive document-database browser: panes, focus,
//! modal popups, action dispatch and the remote-query bookkeeping around them.

pub mod pane_id;
pub mod text;
pub mod model;
pub mod action;
pub mod query;
pub mod context;
pub mod panes;
pub mod registry;
pub mod popup;
pub mod viewer;
pub mod config;
pub mod laws;
