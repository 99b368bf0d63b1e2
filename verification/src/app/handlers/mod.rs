//! What the driver does with the messages of each frame.

pub mod calibration;
pub mod data_collection;
pub mod export;

pub use calibration::CalibrationHandler;
pub use data_collection::DataCollectionHandler;
pub use export::ExportHandler;
