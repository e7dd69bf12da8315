//! Chat ingestion and fan-out core for a single-channel chat metrics tool.
//!
//! The library normalizes raw protocol events into domain events, models the
//! ingestion session as a verified state machine, supervises race-free
//! restarts, and folds the event stream into analytics state.

pub mod chat;
pub mod giveaway;
pub mod keymap;
pub mod overview;
pub mod session;
pub mod settings;
pub mod supervisor;
pub mod ui;

pub use settings::Settings;
