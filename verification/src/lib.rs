//! Verified core of a terminal dashboard that manages many git repositories
//! at once: parsing of git and process output, repository discovery and
//! status classification, list ordering, and the interactive state machine.

pub mod app;
pub mod engine;
pub mod gh;
pub mod git;
pub mod layout;
pub mod order;
pub mod records;
pub mod screen;
pub mod ranking;
pub mod style;
pub mod text;
pub mod types;
