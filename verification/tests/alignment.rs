use sensehub::alignment::{
    align_session_data, align_session_data_internal, alignment_in_range, flatten_audio, AudioChunk,
};
use sensehub::types::DataPoint;

fn reading(value: f64, timestamp: i64) -> DataPoint<f64> {
    DataPoint::new(value, value + 0.25, value + 0.5, -value, -value - 0.25, -value - 0.5, timestamp)
}

fn chunk(start: i64, end: i64, samples: Vec<f64>) -> AudioChunk<f64> {
    AudioChunk {
        start_timestamp: start,
        end_timestamp: end,
        samples,
        sample_rate: 16000,
        channels: 1,
        format: "PCM_16".to_string(),
    }
}

/// 101 readings, 10 ms apart, from 0 to 1000 ms.
fn hundred_hertz() -> Vec<DataPoint<f64>> {
    (0..=100).map(|i| reading(i as f64, i * 10)).collect()
}

fn same_reading(a: &DataPoint<f64>, b: &DataPoint<f64>) -> bool {
    a.x == b.x && a.y == b.y && a.z == b.z && a.gx == b.gx && a.gy == b.gy && a.gz == b.gz
        && a.timestamp == b.timestamp
}

#[test]
fn coinciding_streams_come_back_unchanged() {
    let acc = hundred_hertz();
    let audio = vec![chunk(0, 1000, vec![0.5, -0.5, 0.25])];
    let (aligned, merged, offset) = align_session_data_internal(&acc, &audio);
    assert_eq!(offset, 0);
    assert_eq!(aligned.len(), acc.len());
    assert!(aligned.iter().zip(acc.iter()).all(|(a, b)| same_reading(a, b)));
    assert_eq!(merged.len(), 1);
    assert_eq!(merged[0].samples, vec![0.5, -0.5, 0.25]);
    assert_eq!(merged[0].start_timestamp, 0);
    assert_eq!(merged[0].end_timestamp, 1000);
}

#[test]
fn later_audio_moves_the_readings_forward() {
    let acc = hundred_hertz();
    let audio = vec![chunk(0, 1200, vec![0.5; 4])];
    let (aligned, _, offset) = align_session_data_internal(&acc, &audio);
    assert_eq!(offset, 200);
    assert_eq!(aligned.len(), 101);
    for i in 0..20 {
        assert_eq!(aligned[i].timestamp, -200 + 10 * i as i64);
        assert_eq!(aligned[i].x, acc[0].x);
        assert_eq!(aligned[i].gz, acc[0].gz);
    }
    for i in 20..101 {
        assert!(same_reading(&aligned[i], &acc[i - 20]));
    }
    assert_eq!(aligned[100].timestamp, 800);
}

#[test]
fn earlier_audio_moves_the_readings_backward() {
    let acc = hundred_hertz();
    let audio = vec![chunk(0, 970, vec![0.5; 4])];
    let (aligned, _, offset) = align_session_data_internal(&acc, &audio);
    assert_eq!(offset, 30);
    assert_eq!(aligned.len(), 101);
    for i in 0..98 {
        assert!(same_reading(&aligned[i], &acc[i + 3]));
    }
    for i in 0..3 {
        assert_eq!(aligned[98 + i].timestamp, 1000 + 10 * (i as i64 + 1));
        assert_eq!(aligned[98 + i].x, acc[100].x);
        assert_eq!(aligned[98 + i].gy, acc[100].gy);
    }
}

#[test]
fn shift_is_rounded_to_the_nearest_sample() {
    let acc = hundred_hertz();
    // 14 ms are 1.4 samples, 15 ms are 1.5, 16 ms are 1.6.
    let (aligned, _, _) = align_session_data_internal(&acc, &vec![chunk(0, 1014, vec![0.0])]);
    assert_eq!(aligned[0].timestamp, -10);
    assert_eq!(aligned[1].timestamp, 0);
    let (aligned, _, offset) = align_session_data_internal(&acc, &vec![chunk(0, 1015, vec![0.0])]);
    assert_eq!(offset, 15);
    assert_eq!(aligned[0].timestamp, -20);
    assert_eq!(aligned[2].timestamp, 0);
    let (aligned, _, _) = align_session_data_internal(&acc, &vec![chunk(0, 985, vec![0.0])]);
    assert_eq!(aligned[0].timestamp, 20);
    assert_eq!(aligned[100].timestamp, 1020);
    let (aligned, _, _) = align_session_data_internal(&acc, &vec![chunk(0, 1004, vec![0.0])]);
    assert!(aligned.iter().zip(acc.iter()).all(|(a, b)| same_reading(a, b)));
}

#[test]
fn padding_stamps_are_cut_to_whole_milliseconds() {
    // 3 intervals in 10 ms: one interval is 3.33 ms.
    let acc: Vec<DataPoint<f64>> = vec![reading(1.0, 100), reading(2.0, 103), reading(3.0, 107), reading(4.0, 110)];
    let (aligned, _, offset) = align_session_data_internal(&acc, &vec![chunk(0, 120, vec![0.0])]);
    assert_eq!(offset, 10);
    let stamps: Vec<i64> = aligned.iter().map(|p| p.timestamp).collect();
    // Three padding readings at 10, 6.67 and 3.33 ms before the first.
    assert_eq!(stamps, vec![90, 94, 97, 100]);
    assert_eq!(aligned[3].x, 1.0);
    let (aligned, _, _) = align_session_data_internal(&acc, &vec![chunk(0, 100, vec![0.0])]);
    let stamps: Vec<i64> = aligned.iter().map(|p| p.timestamp).collect();
    assert_eq!(stamps, vec![110, 113, 116, 120]);
    assert_eq!(aligned[0].x, 4.0);
}

#[test]
fn a_shift_longer_than_the_stream_leaves_only_padding() {
    let acc: Vec<DataPoint<f64>> = vec![reading(1.0, 0), reading(2.0, 10), reading(3.0, 20)];
    let (aligned, _, offset) = align_session_data_internal(&acc, &vec![chunk(0, 70, vec![0.0])]);
    assert_eq!(offset, 50);
    let stamps: Vec<i64> = aligned.iter().map(|p| p.timestamp).collect();
    assert_eq!(stamps, vec![-50, -40, -30, -20, -10]);
    assert!(aligned.iter().all(|p| p.x == 1.0));
    let (aligned, _, _) = align_session_data_internal(&acc, &vec![chunk(0, -30, vec![0.0])]);
    let stamps: Vec<i64> = aligned.iter().map(|p| p.timestamp).collect();
    assert_eq!(stamps, vec![30, 40, 50, 60, 70]);
    assert!(aligned.iter().all(|p| p.x == 3.0));
}

#[test]
fn a_single_reading_is_aligned_at_the_default_rate() {
    // 400 Hz: 10 ms are 4 samples of 2.5 ms.
    let acc: Vec<DataPoint<f64>> = vec![reading(9.0, 1000)];
    let (aligned, _, offset) = align_session_data_internal(&acc, &vec![chunk(0, 1010, vec![0.0])]);
    assert_eq!(offset, 10);
    let stamps: Vec<i64> = aligned.iter().map(|p| p.timestamp).collect();
    assert_eq!(stamps, vec![990, 993, 995, 998]);
}

#[test]
fn empty_streams_are_returned_as_they_are() {
    let acc = hundred_hertz();
    let none: Vec<AudioChunk<f64>> = Vec::new();
    let (aligned, merged, offset) = align_session_data_internal(&acc, &none);
    assert_eq!(offset, 0);
    assert_eq!(aligned.len(), 101);
    assert!(merged.is_empty());
    let no_readings: Vec<DataPoint<f64>> = Vec::new();
    let audio = vec![chunk(5, 6, vec![0.5]), chunk(7, 8, vec![0.25])];
    let (aligned, merged, offset) = align_session_data_internal(&no_readings, &audio);
    assert_eq!(offset, 0);
    assert!(aligned.is_empty());
    assert_eq!(merged.len(), 2);
    assert_eq!(merged[1].samples, vec![0.25]);
    assert_eq!(merged[1].start_timestamp, 7);
}

#[test]
fn audio_chunks_are_merged_into_one() {
    let acc = hundred_hertz();
    let mut last = chunk(600, 1000, vec![0.75]);
    last.sample_rate = 8000;
    last.channels = 2;
    last.format = "PCM_8".to_string();
    let audio = vec![chunk(0, 500, vec![0.5, 0.25]), chunk(500, 600, Vec::new()), last];
    assert_eq!(flatten_audio(&audio), vec![0.5, 0.25, 0.75]);
    let (_, merged, _) = align_session_data_internal(&acc, &audio);
    assert_eq!(merged.len(), 1);
    assert_eq!(merged[0].samples, vec![0.5, 0.25, 0.75]);
    assert_eq!(merged[0].start_timestamp, 0);
    assert_eq!(merged[0].end_timestamp, 1000);
    assert_eq!(merged[0].sample_rate, 8000);
    assert_eq!(merged[0].channels, 2);
    assert_eq!(merged[0].format, "PCM_8");
    let silent = vec![chunk(0, 1000, Vec::new())];
    let (_, merged, _) = align_session_data_internal(&acc, &silent);
    assert!(merged.is_empty());
}

#[test]
fn alignment_beyond_the_range_of_timestamps_is_refused() {
    let acc: Vec<DataPoint<f64>> = vec![reading(1.0, i64::MIN), reading(2.0, i64::MIN + 10)];
    let audio = vec![chunk(0, i64::MAX, vec![0.0])];
    assert!(!alignment_in_range(&acc, &audio));
    assert!(align_session_data(&acc, &audio).is_none());
    let acc = hundred_hertz();
    let audio = vec![chunk(0, 1200, vec![0.0])];
    assert!(alignment_in_range(&acc, &audio));
    let aligned = align_session_data(&acc, &audio).unwrap();
    assert_eq!(aligned.2, 200);
    assert_eq!(aligned.0[0].timestamp, -200);
}
