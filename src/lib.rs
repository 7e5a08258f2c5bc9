//! Coordination core of a terminal front end for a version-controlled
//! directory: change classification, list navigation and the action reducer.
pub mod app;
pub mod config;
pub mod diff;
pub mod display;
pub mod error;
pub mod history;
pub mod input;
pub mod nav;
pub mod order;
pub mod preview;
pub mod status;
