//! Core of a sensor capture pipeline: sliding window buffers, start-up
//! calibration of the sample rate, alignment of the sensor and audio streams,
//! and the decisions of the storage worker.

pub mod alignment;
pub mod app;
pub mod audio;
pub mod channel;
pub mod config;
pub mod database;
pub mod mqtt;
pub mod names;
pub mod plotter;
pub mod text;
pub mod types;
pub mod utils;
