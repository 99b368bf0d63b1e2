//! The state of the pipeline's driver and the transitions that its events
//! cause.

pub mod app_core;
pub mod app_events;
pub mod app_save;
pub mod export_state;
pub mod handlers;
pub mod history;
pub mod state;

pub use app_core::SensorDataApp;
pub use state::AppState;
