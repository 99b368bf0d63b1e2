use sensehub::alignment::AudioChunk;
use sensehub::database::export_session_to_csv_internal;
use sensehub::database::tasks::{csv_lines, export_directory, export_file_path};
use sensehub::types::DataPoint;

fn cells(row: usize) -> DataPoint<String> {
    DataPoint {
        x: format!("{}.1", row),
        y: format!("{}.2", row),
        z: format!("{}.3", row),
        gx: format!("{}.4", row),
        gy: format!("{}.5", row),
        gz: format!("{}.6", row),
        timestamp: row as i64,
    }
}

fn reading(value: f64, timestamp: i64) -> DataPoint<f64> {
    DataPoint::new(value, 0.0, 0.0, 0.0, 0.0, 0.0, timestamp)
}

#[test]
fn rows_pair_readings_with_audio_and_leave_the_rest_blank() {
    let sensor: Vec<DataPoint<String>> = (0..5).map(cells).collect();
    let audio: Vec<String> = vec!["0.5".to_string(), "-0.25".to_string()];
    let lines = csv_lines(&sensor, &audio);
    assert_eq!(lines.len(), 6);
    assert_eq!(lines[0], "acc_x,acc_y,acc_z,gyro_x,gyro_y,gyro_z,audio_sample");
    assert_eq!(lines[1], "0.1,0.2,0.3,0.4,0.5,0.6,0.5");
    assert_eq!(lines[2], "1.1,1.2,1.3,1.4,1.5,1.6,-0.25");
    assert_eq!(lines[3], "2.1,2.2,2.3,2.4,2.5,2.6,");
    assert_eq!(lines[5], "4.1,4.2,4.3,4.4,4.5,4.6,");
    for line in &lines[1..3] {
        let fields: Vec<&str> = line.split(',').collect();
        assert_eq!(fields.len(), 7);
        assert!(fields.iter().all(|f| !f.is_empty()));
    }
    for line in &lines[3..] {
        let fields: Vec<&str> = line.split(',').collect();
        assert_eq!(fields.len(), 7);
        assert!(fields[..6].iter().all(|f| !f.is_empty()));
        assert!(fields[6].is_empty());
    }
}

#[test]
fn rows_of_audio_alone_leave_the_motion_fields_blank() {
    let sensor: Vec<DataPoint<String>> = vec![cells(7)];
    let audio: Vec<String> = vec!["1".to_string(), "2".to_string(), "3".to_string()];
    let lines = csv_lines(&sensor, &audio);
    assert_eq!(lines.len(), 4);
    assert_eq!(lines[1], "7.1,7.2,7.3,7.4,7.5,7.6,1");
    assert_eq!(lines[2], ",,,,,,2");
    assert_eq!(lines[3], ",,,,,,3");
}

#[test]
fn export_of_nothing_is_only_the_header() {
    let lines = csv_lines(&Vec::new(), &Vec::new());
    assert_eq!(lines, vec!["acc_x,acc_y,acc_z,gyro_x,gyro_y,gyro_z,audio_sample".to_string()]);
}

#[test]
fn export_path_names_user_scenario_and_session() {
    assert_eq!(export_directory("ann", "walk"), "data_export/ann/walk");
    assert_eq!(
        export_file_path("ann", "walk", "session_20240102_030405"),
        "data_export/ann/walk/session_20240102_030405.csv"
    );
    assert_eq!(export_file_path("", "", "s1"), "data_export/unknown_user/standard/s1.csv");
    assert_eq!(export_file_path("", "run", "s1"), "data_export/unknown_user/run/s1.csv");
    assert_eq!(export_file_path("bob", "", "s1"), "data_export/bob/standard/s1.csv");
}

#[test]
fn session_without_data_is_not_exported() {
    let acc: Vec<DataPoint<f64>> = Vec::new();
    let audio: Vec<AudioChunk<f64>> = Vec::new();
    let refused = export_session_to_csv_internal("ann", "walk", "s1", &acc, &audio);
    assert_eq!(refused.unwrap_err(), "No data in session");
}

#[test]
fn export_aligns_the_session_and_flattens_its_audio() {
    let acc: Vec<DataPoint<f64>> = (0..=10).map(|i| reading(i as f64, i * 10)).collect();
    let audio = vec![
        AudioChunk {
            start_timestamp: 0,
            end_timestamp: 60,
            samples: vec![0.5, 0.25],
            sample_rate: 16000,
            channels: 1,
            format: "PCM_16".to_string(),
        },
        AudioChunk {
            start_timestamp: 60,
            end_timestamp: 120,
            samples: vec![0.125],
            sample_rate: 16000,
            channels: 1,
            format: "PCM_16".to_string(),
        },
    ];
    let export = export_session_to_csv_internal("", "walk", "s9", &acc, &audio).unwrap();
    assert_eq!(export.directory, "data_export/unknown_user/walk");
    assert_eq!(export.file_path, "data_export/unknown_user/walk/s9.csv");
    assert_eq!(export.common_time_range_ms, 20);
    assert_eq!(export.audio, vec![0.5, 0.25, 0.125]);
    assert_eq!(export.sensor.len(), 11);
    assert_eq!(export.sensor[0].timestamp, -20);
    assert_eq!(export.sensor[1].timestamp, -10);
    assert_eq!(export.sensor[2].timestamp, 0);
    assert_eq!(export.sensor[10].timestamp, 80);
    assert_eq!(export.sensor[10].x, 8.0);
    let only_audio = export_session_to_csv_internal("a", "b", "c", &Vec::<DataPoint<f64>>::new(), &audio);
    let only_audio = only_audio.unwrap();
    assert!(only_audio.sensor.is_empty());
    assert_eq!(only_audio.audio, vec![0.5, 0.25, 0.125]);
    assert_eq!(only_audio.common_time_range_ms, 0);
}
