//! What the ingest side decides about its connection.

pub mod client;

pub use client::{attempt_mqtt_connection, run_mqtt_client};
