//! What the storage worker decides: how a save is split and summed up, how a
//! finished request is answered, what an export writes, and when the worker
//! stops.

pub mod handlers;
pub mod manager;
pub mod tasks;

pub use crate::alignment::align_session_data_internal;
pub use handlers::{handle_export_request, run_database_handler};
pub use manager::generate_session_id;
pub use tasks::export_session_to_csv_internal;
