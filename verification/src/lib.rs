//! The launcher of a sidebar for the herdr terminal multiplexer, and the git
//! widgets that the sidebar shows.
//!
//! What the launcher does alternates between questions to its surroundings and
//! decisions. `run`, `open`, `repair` and `sidebar_tab` hold the decisions: each
//! names the next thing to do and goes on from what came of it. `run_laws` and
//! `open_laws` state what holds of them whatever the surroundings answer.
//! `picker` and `footer` lay out the widgets and take in events.

pub mod activity;
pub mod event;
pub mod footer;
pub mod geometry;
pub mod json;
pub mod open;
pub mod open_laws;
pub mod panes;
pub mod picker;
pub mod repair;
pub mod request;
pub mod run;
pub mod run_laws;
pub mod sidebar_tab;
pub mod text;
