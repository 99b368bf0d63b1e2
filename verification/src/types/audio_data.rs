use vstd::prelude::*;

verus! {

/// One audio record as the ingest side delivers it: a base64 payload of
/// 16-bit little-endian mono PCM with its description and the timestamp of
/// its first sample.
#[derive(Clone, Debug)]
pub struct AudioData {
    pub audio_data: String,
    pub sample_rate: u32,
    pub channels: u8,
    pub format: String,
    pub samples: usize,
    pub timestamp: i64,
}

impl AudioData {
    pub fn new(
        audio_data: String,
        sample_rate: u32,
        channels: u8,
        format: String,
        samples: usize,
        timestamp: i64,
    ) -> (a: Self)
        ensures
            a == (AudioData { audio_data, sample_rate, channels, format, samples, timestamp }),
    {
        AudioData { audio_data, sample_rate, channels, format, samples, timestamp }
    }

    /// A record that holds the same values as this one.
    pub fn duplicate(&self) -> (copy: Self)
        ensures
            copy == *self,
    {
        AudioData {
            audio_data: self.audio_data.clone(),
            sample_rate: self.sample_rate,
            channels: self.channels,
            format: self.format.clone(),
            samples: self.samples,
            timestamp: self.timestamp,
        }
    }
}

} // verus!
