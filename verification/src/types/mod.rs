//! Plain records that travel through the pipeline.

pub mod audio_data;
pub mod data_point;
pub mod results;
pub mod tasks;

pub use audio_data::AudioData;
pub use data_point::DataPoint;
pub use results::{ExportResult, SaveResult};
pub use tasks::{DatabaseTask, ExportType};
