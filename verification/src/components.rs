//! Per-phase state and action handling.
//!
//! Each component owns one phase's state (or one overlay's) and folds
//! the actions that concern it into that state, optionally handing a
//! chained action back to the dispatcher. Drawing the state on screen
//! happens outside the library.

pub mod benchmark_dashboard;
pub mod help;
pub mod merge_dialog;
pub mod project_intake;
pub mod research_explorer;
pub mod status_bar;
pub mod technique_cards;
pub mod variant_builder;
