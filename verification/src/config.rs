//! The settings that the pipeline reads, with their defaults and the rules
//! they have to meet. Durations are whole milliseconds and sizes whole
//! points.

use vstd::prelude::*;

verus! {

/// Size and behaviour of the application's window.
#[derive(Debug, Clone)]
pub struct WindowConfig {
    pub width: u32,
    pub height: u32,
    pub title: String,
    pub resizable: bool,
    pub vsync: bool,
    pub hardware_acceleration: bool,
}

/// Where the store lies.
#[derive(Debug, Clone)]
pub struct DatabaseConfig {
    pub path: String,
    pub channel_capacity: usize,
    pub auto_create_dir: bool,
}

/// The topics on which the two streams arrive.
#[derive(Debug, Clone)]
pub struct MqttTopics {
    pub accelerometer: String,
    pub audio: String,
}

/// How the ingest side reaches its broker.
#[derive(Debug, Clone)]
pub struct MqttConfig {
    pub broker: String,
    pub port: u16,
    pub client_id: String,
    pub topics: MqttTopics,
    pub qos: u8,
    pub keep_alive: u16,
}

/// The colours of the drawn series, each as red, green and blue.
#[derive(Debug, Clone, Copy)]
pub struct PlotColors {
    pub x_axis: [u8; 3],
    pub y_axis: [u8; 3],
    pub z_axis: [u8; 3],
    pub audio: [u8; 3],
}

/// Length of the live window for each stream, and how it is drawn.
#[derive(Debug, Clone, Copy)]
pub struct PlotConfig {
    pub window_duration_ms: u64,
    pub audio_window_duration_ms: u64,
    pub plot_height: u32,
    pub show_axes: bool,
    pub allow_drag: bool,
    pub allow_zoom: bool,
    pub colors: PlotColors,
}

/// The start-up calibration: how long the device is left to settle, how long
/// samples are then measured, and the rate assumed until it is known.
#[derive(Debug, Clone, Copy)]
pub struct CalibrationConfig {
    pub warmup_ms: u64,
    pub duration_ms: u64,
    pub min_samples: usize,
    pub initial_sample_rate: usize,
    pub auto_start: bool,
}

/// How many messages each channel of the pipeline holds.
#[derive(Debug, Clone, Copy, PartialEq, Eq, Structural)]
pub struct ChannelConfig {
    pub data_channel_capacity: usize,
    pub audio_channel_capacity: usize,
    pub db_task_channel_capacity: usize,
    pub save_result_channel_capacity: usize,
}

/// All settings.
#[derive(Debug, Clone)]
pub struct AppConfig {
    pub window: WindowConfig,
    pub database: DatabaseConfig,
    pub mqtt: MqttConfig,
    pub plot: PlotConfig,
    pub calibration: CalibrationConfig,
    pub channels: ChannelConfig,
}

/// Why settings are refused.
#[derive(Debug, Clone, Copy, PartialEq, Eq, Structural)]
pub enum ConfigError {
    /// The window has no width or no height.
    WindowDimensions,
    /// Calibration measures for no time at all.
    CalibrationDuration,
    /// Calibration asks for fewer than two samples.
    MinimumSamples,
    /// The channel of sensor readings holds nothing.
    DataChannelCapacity,
}

impl ConfigError {
    /// The words that tell a user of the refusal.
    pub fn message(&self) -> (text: String)
        ensures
            text@ == match self {
                ConfigError::WindowDimensions =>
                    "Validation error: Window dimensions must be positive"@,
                ConfigError::CalibrationDuration =>
                    "Validation error: Calibration duration must be positive"@,
                ConfigError::MinimumSamples =>
                    "Validation error: Minimum samples must be at least 2"@,
                ConfigError::DataChannelCapacity =>
                    "Validation error: Data channel capacity must be positive"@,
            },
    {
        match self {
            ConfigError::WindowDimensions => String::from_str(
                "Validation error: Window dimensions must be positive",
            ),
            ConfigError::CalibrationDuration => String::from_str(
                "Validation error: Calibration duration must be positive",
            ),
            ConfigError::MinimumSamples => String::from_str(
                "Validation error: Minimum samples must be at least 2",
            ),
            ConfigError::DataChannelCapacity => String::from_str(
                "Validation error: Data channel capacity must be positive",
            ),
        }
    }
}

impl Default for WindowConfig {
    fn default() -> (config: Self)
        ensures
            config.width == 1200,
            config.height == 800,
            config.title@ == "SenseHub - Sensor Data Viewer"@,
            config.resizable,
            config.vsync,
            config.hardware_acceleration,
    {
        WindowConfig {
            width: 1200,
            height: 800,
            title: String::from_str("SenseHub - Sensor Data Viewer"),
            resizable: true,
            vsync: true,
            hardware_acceleration: true,
        }
    }
}

impl Default for DatabaseConfig {
    fn default() -> (config: Self)
        ensures
            config.path@ == "data/sensor_data.db"@,
            config.channel_capacity == 100,
            config.auto_create_dir,
    {
        DatabaseConfig {
            path: String::from_str("data/sensor_data.db"),
            channel_capacity: 100,
            auto_create_dir: true,
        }
    }
}

impl Default for MqttTopics {
    fn default() -> (topics: Self)
        ensures
            topics.accelerometer@ == "sensor/accelerometer"@,
            topics.audio@ == "sensor/audio"@,
    {
        MqttTopics {
            accelerometer: String::from_str("sensor/accelerometer"),
            audio: String::from_str("sensor/audio"),
        }
    }
}

impl Default for MqttConfig {
    fn default() -> (config: Self)
        ensures
            config.broker@ == "localhost"@,
            config.port == 1883,
            config.client_id@ == "sensehub_client"@,
            config.topics.accelerometer@ == "sensor/accelerometer"@,
            config.topics.audio@ == "sensor/audio"@,
            config.qos == 1,
            config.keep_alive == 60,
    {
        MqttConfig {
            broker: String::from_str("localhost"),
            port: 1883,
            client_id: String::from_str("sensehub_client"),
            topics: MqttTopics::default(),
            qos: 1,
            keep_alive: 60,
        }
    }
}

impl Default for PlotColors {
    /// Red, green and blue for the three axes, purple for the audio.
    fn default() -> (colors: Self)
        ensures
            colors.x_axis@ == seq![255u8, 0u8, 0u8],
            colors.y_axis@ == seq![0u8, 255u8, 0u8],
            colors.z_axis@ == seq![0u8, 0u8, 255u8],
            colors.audio@ == seq![128u8, 0u8, 128u8],
    {
        let colors = PlotColors {
            x_axis: [255, 0, 0],
            y_axis: [0, 255, 0],
            z_axis: [0, 0, 255],
            audio: [128, 0, 128],
        };
        assert(colors.x_axis@ =~= seq![255u8, 0u8, 0u8]);
        assert(colors.y_axis@ =~= seq![0u8, 255u8, 0u8]);
        assert(colors.z_axis@ =~= seq![0u8, 0u8, 255u8]);
        assert(colors.audio@ =~= seq![128u8, 0u8, 128u8]);
        colors
    }
}

impl Default for PlotConfig {
    fn default() -> (config: Self)
        ensures
            config.window_duration_ms == 5000,
            config.audio_window_duration_ms == 5000,
            config.plot_height == 150,
            !config.show_axes,
            !config.allow_drag,
            !config.allow_zoom,
            config.colors.x_axis@ == seq![255u8, 0u8, 0u8],
            config.colors.y_axis@ == seq![0u8, 255u8, 0u8],
            config.colors.z_axis@ == seq![0u8, 0u8, 255u8],
            config.colors.audio@ == seq![128u8, 0u8, 128u8],
    {
        PlotConfig {
            window_duration_ms: 5000,
            audio_window_duration_ms: 5000,
            plot_height: 150,
            show_axes: false,
            allow_drag: false,
            allow_zoom: false,
            colors: PlotColors::default(),
        }
    }
}

impl Default for CalibrationConfig {
    /// Two seconds to settle, six seconds of measuring.
    fn default() -> (config: Self)
        ensures
            config == (CalibrationConfig {
                warmup_ms: 2000,
                duration_ms: 6000,
                min_samples: 2,
                initial_sample_rate: 393,
                auto_start: true,
            }),
    {
        CalibrationConfig {
            warmup_ms: 2000,
            duration_ms: 6000,
            min_samples: 2,
            initial_sample_rate: 393,
            auto_start: true,
        }
    }
}

impl Default for ChannelConfig {
    fn default() -> (config: Self)
        ensures
            config == (ChannelConfig {
                data_channel_capacity: 5000,
                audio_channel_capacity: 10000,
                db_task_channel_capacity: 100,
                save_result_channel_capacity: 100,
            }),
    {
        ChannelConfig {
            data_channel_capacity: 5000,
            audio_channel_capacity: 10000,
            db_task_channel_capacity: 100,
            save_result_channel_capacity: 100,
        }
    }
}

impl Default for AppConfig {
    /// The defaults of every part; they meet the rules.
    fn default() -> (config: Self)
        ensures
            config.is_default(),
            config.first_fault() is None,
            config.plot.window_duration_ms == 5000,
            config.calibration == (CalibrationConfig {
                warmup_ms: 2000,
                duration_ms: 6000,
                min_samples: 2,
                initial_sample_rate: 393,
                auto_start: true,
            }),
            config.channels == (ChannelConfig {
                data_channel_capacity: 5000,
                audio_channel_capacity: 10000,
                db_task_channel_capacity: 100,
                save_result_channel_capacity: 100,
            }),
            config.database.path@ == "data/sensor_data.db"@,
    {
        AppConfig {
            window: WindowConfig::default(),
            database: DatabaseConfig::default(),
            mqtt: MqttConfig::default(),
            plot: PlotConfig::default(),
            calibration: CalibrationConfig::default(),
            channels: ChannelConfig::default(),
        }
    }
}

impl AppConfig {
    /// Whether these are the settings with which the application starts
    /// when no file says otherwise.
    pub open spec fn is_default(self) -> bool {
        &&& self.window.width == 1200
        &&& self.window.height == 800
        &&& self.window.title@ == "SenseHub - Sensor Data Viewer"@
        &&& self.window.resizable
        &&& self.window.vsync
        &&& self.window.hardware_acceleration
        &&& self.database.path@ == "data/sensor_data.db"@
        &&& self.database.channel_capacity == 100
        &&& self.database.auto_create_dir
        &&& self.mqtt.broker@ == "localhost"@
        &&& self.mqtt.port == 1883
        &&& self.mqtt.client_id@ == "sensehub_client"@
        &&& self.mqtt.topics.accelerometer@ == "sensor/accelerometer"@
        &&& self.mqtt.topics.audio@ == "sensor/audio"@
        &&& self.mqtt.qos == 1
        &&& self.mqtt.keep_alive == 60
        &&& self.plot.window_duration_ms == 5000
        &&& self.plot.audio_window_duration_ms == 5000
        &&& self.plot.plot_height == 150
        &&& !self.plot.show_axes
        &&& !self.plot.allow_drag
        &&& !self.plot.allow_zoom
        &&& self.plot.colors.x_axis@ == seq![255u8, 0u8, 0u8]
        &&& self.plot.colors.y_axis@ == seq![0u8, 255u8, 0u8]
        &&& self.plot.colors.z_axis@ == seq![0u8, 0u8, 255u8]
        &&& self.plot.colors.audio@ == seq![128u8, 0u8, 128u8]
        &&& self.calibration == (CalibrationConfig {
            warmup_ms: 2000,
            duration_ms: 6000,
            min_samples: 2,
            initial_sample_rate: 393,
            auto_start: true,
        })
        &&& self.channels == (ChannelConfig {
            data_channel_capacity: 5000,
            audio_channel_capacity: 10000,
            db_task_channel_capacity: 100,
            save_result_channel_capacity: 100,
        })
    }

    /// The first rule that these settings break, in the order in which the
    /// rules are checked.
    pub open spec fn first_fault(self) -> Option<ConfigError> {
        if self.window.width == 0 || self.window.height == 0 {
            Some(ConfigError::WindowDimensions)
        } else if self.calibration.duration_ms == 0 {
            Some(ConfigError::CalibrationDuration)
        } else if self.calibration.min_samples < 2 {
            Some(ConfigError::MinimumSamples)
        } else if self.channels.data_channel_capacity == 0 {
            Some(ConfigError::DataChannelCapacity)
        } else {
            None
        }
    }

    /// Checks the settings against the rules.
    pub fn validate(&self) -> (checked: Result<(), ConfigError>)
        ensures
            match self.first_fault() {
                Some(fault) => checked == Err::<(), ConfigError>(fault),
                None => checked is Ok,
            },
    {
        if self.window.width == 0 || self.window.height == 0 {
            return Err(ConfigError::WindowDimensions);
        }
        if self.calibration.duration_ms == 0 {
            return Err(ConfigError::CalibrationDuration);
        }
        if self.calibration.min_samples < 2 {
            return Err(ConfigError::MinimumSamples);
        }
        if self.channels.data_channel_capacity == 0 {
            return Err(ConfigError::DataChannelCapacity);
        }
        Ok(())
    }

    /// The path of the store's file.
    pub fn get_database_path(&self) -> (path: String)
        ensures
            path@ == self.database.path@,
    {
        self.database.path.clone()
    }
}

/// The settings in use and the file they came from, if they came from one.
#[derive(Debug, Clone)]
pub struct ConfigManager {
    config: AppConfig,
    config_path: Option<String>,
}

impl ConfigManager {
    /// A manager of the default settings, bound to no file.
    pub fn new() -> (manager: Self)
        ensures
            manager.config().is_default(),
            manager.config().first_fault() is None,
            manager.path() is None,
    {
        ConfigManager { config: AppConfig::default(), config_path: None }
    }

    /// A manager of settings that were read from the file at `path`. They
    /// are taken only if they meet the rules.
    pub fn load_from_file(config: AppConfig, path: String) -> (loaded: Result<Self, ConfigError>)
        ensures
            match config.first_fault() {
                Some(fault) => loaded matches Err(e) && e == fault,
                None => loaded matches Ok(manager) && manager.config() == config
                    && manager.path() == Some(path),
            },
    {
        match config.validate() {
            Ok(_) => Ok(ConfigManager { config, config_path: Some(path) }),
            Err(fault) => Err(fault),
        }
    }

    pub closed spec fn config(self) -> AppConfig {
        self.config
    }

    pub closed spec fn path(self) -> Option<String> {
        self.config_path
    }

    pub fn get_config(&self) -> (config: &AppConfig)
        ensures
            *config == self.config(),
    {
        &self.config
    }

    /// The file to which `save` writes, if the manager is bound to one.
    pub fn save_path(&self) -> (path: Option<&String>)
        ensures
            match path {
                Some(p) => self.path() == Some(*p),
                None => self.path() is None,
            },
    {
        match &self.config_path {
            Some(p) => Some(p),
            None => None,
        }
    }
}

} // verus!
