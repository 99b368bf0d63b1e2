use sensehub::config::{
    AppConfig, CalibrationConfig, ChannelConfig, ConfigError, ConfigManager, DatabaseConfig,
    MqttConfig, MqttTopics, PlotColors, PlotConfig, WindowConfig,
};

#[test]
fn default_settings() {
    let config = AppConfig::default();
    assert_eq!((config.window.width, config.window.height), (1200, 800));
    assert_eq!(config.window.title, "SenseHub - Sensor Data Viewer");
    assert!(config.window.resizable && config.window.vsync && config.window.hardware_acceleration);
    assert_eq!(config.database.path, "data/sensor_data.db");
    assert_eq!(config.database.channel_capacity, 100);
    assert!(config.database.auto_create_dir);
    assert_eq!(config.mqtt.broker, "localhost");
    assert_eq!(config.mqtt.port, 1883);
    assert_eq!(config.mqtt.client_id, "sensehub_client");
    assert_eq!(config.mqtt.topics.accelerometer, "sensor/accelerometer");
    assert_eq!(config.mqtt.topics.audio, "sensor/audio");
    assert_eq!((config.mqtt.qos, config.mqtt.keep_alive), (1, 60));
    assert_eq!(config.plot.window_duration_ms, 5000);
    assert_eq!(config.plot.audio_window_duration_ms, 5000);
    assert_eq!(config.plot.plot_height, 150);
    assert!(!config.plot.show_axes && !config.plot.allow_drag && !config.plot.allow_zoom);
    assert_eq!(config.plot.colors.x_axis, [255, 0, 0]);
    assert_eq!(config.plot.colors.y_axis, [0, 255, 0]);
    assert_eq!(config.plot.colors.z_axis, [0, 0, 255]);
    assert_eq!(config.plot.colors.audio, [128, 0, 128]);
    assert_eq!((config.calibration.warmup_ms, config.calibration.duration_ms), (2000, 6000));
    assert_eq!(config.calibration.min_samples, 2);
    assert_eq!(config.calibration.initial_sample_rate, 393);
    assert!(config.calibration.auto_start);
    assert_eq!(config.channels.data_channel_capacity, 5000);
    assert_eq!(config.channels.audio_channel_capacity, 10000);
    assert_eq!(config.channels.db_task_channel_capacity, 100);
    assert_eq!(config.channels.save_result_channel_capacity, 100);
    assert_eq!(config.validate(), Ok(()));
}

#[test]
fn parts_have_the_same_defaults_on_their_own() {
    assert_eq!(WindowConfig::default().width, 1200);
    assert_eq!(DatabaseConfig::default().path, "data/sensor_data.db");
    assert_eq!(MqttConfig::default().port, 1883);
    assert_eq!(MqttTopics::default().audio, "sensor/audio");
    assert_eq!(PlotConfig::default().window_duration_ms, 5000);
    assert_eq!(PlotColors::default().audio, [128, 0, 128]);
    assert_eq!(CalibrationConfig::default().duration_ms, 6000);
    assert_eq!(ChannelConfig::default().data_channel_capacity, 5000);
}

#[test]
fn settings_that_break_a_rule_are_refused() {
    let mut config = AppConfig::default();
    config.window.width = 0;
    assert_eq!(config.validate(), Err(ConfigError::WindowDimensions));
    let mut config = AppConfig::default();
    config.window.height = 0;
    assert_eq!(config.validate(), Err(ConfigError::WindowDimensions));
    let mut config = AppConfig::default();
    config.calibration.duration_ms = 0;
    assert_eq!(config.validate(), Err(ConfigError::CalibrationDuration));
    let mut config = AppConfig::default();
    config.calibration.min_samples = 1;
    assert_eq!(config.validate(), Err(ConfigError::MinimumSamples));
    let mut config = AppConfig::default();
    config.channels.data_channel_capacity = 0;
    assert_eq!(config.validate(), Err(ConfigError::DataChannelCapacity));
}

#[test]
fn the_first_broken_rule_is_reported() {
    let mut config = AppConfig::default();
    config.channels.data_channel_capacity = 0;
    config.calibration.min_samples = 0;
    assert_eq!(config.validate(), Err(ConfigError::MinimumSamples));
    config.calibration.duration_ms = 0;
    assert_eq!(config.validate(), Err(ConfigError::CalibrationDuration));
    config.window.height = 0;
    assert_eq!(config.validate(), Err(ConfigError::WindowDimensions));
}

#[test]
fn refusals_are_worded() {
    assert_eq!(
        ConfigError::WindowDimensions.message(),
        "Validation error: Window dimensions must be positive"
    );
    assert_eq!(
        ConfigError::CalibrationDuration.message(),
        "Validation error: Calibration duration must be positive"
    );
    assert_eq!(
        ConfigError::MinimumSamples.message(),
        "Validation error: Minimum samples must be at least 2"
    );
    assert_eq!(
        ConfigError::DataChannelCapacity.message(),
        "Validation error: Data channel capacity must be positive"
    );
}

#[test]
fn manager_holds_checked_settings_and_their_file() {
    let manager = ConfigManager::new();
    assert_eq!(manager.get_config().plot.window_duration_ms, 5000);
    assert_eq!(manager.save_path(), None);
    assert_eq!(manager.get_config().get_database_path(), "data/sensor_data.db");
    let mut config = AppConfig::default();
    config.plot.window_duration_ms = 7000;
    let loaded = ConfigManager::load_from_file(config, "settings.toml".to_string()).unwrap();
    assert_eq!(loaded.get_config().plot.window_duration_ms, 7000);
    assert_eq!(loaded.save_path(), Some(&"settings.toml".to_string()));
    let mut broken = AppConfig::default();
    broken.calibration.min_samples = 0;
    let refused = ConfigManager::load_from_file(broken, "settings.toml".to_string());
    assert_eq!(refused.err(), Some(ConfigError::MinimumSamples));
}
