[package]
name = "sensehub"
version = "0.1.0"
edition = "2021"
publish = false

[dependencies]
base64 = "=0.22.1"
chrono = "=0.4.45"
crossbeam-channel = "=0.5.17"
dotenv = "=0.15.0"
eframe = { version = "=0.31.1", default-features = false, features = ["default_fonts", "glow", "x11"] }
egui = { version = "=0.31.1", default-features = false }
egui_plot = { version = "=0.32.1", default-features = false }
env_logger = "=0.11.11"
log = "=0.4.34"
rumqttc = { version = "=0.24.0", default-features = false }
serde = { version = "=1.0.229", features = ["derive"] }
serde_json = "=1.0.154"
thiserror = "=2.0.21"
toml = "=1.1.8"
