//! Keeping a recording for a later write to a WAV file.

use vstd::prelude::*;

verus! {

/// Settings of an [`AudioStorage`].
#[derive(Clone, Debug)]
pub struct StorageConfig {
    /// Where the recording is written.
    pub output_path: String,
    /// Whether the recording is written at all.
    pub save_to_file: bool,
    /// Sample rate of the file.
    pub output_sample_rate: u32,
    /// Number of channels of the file.
    pub output_channels: u16,
    /// Bits per sample of the file.
    pub output_bits_per_sample: u16,
}

/// The format of a WAV file of integer samples.
#[derive(Clone, Copy, Debug, PartialEq, Eq, Structural)]
pub struct WavFormat {
    /// Number of interleaved channels.
    pub channels: u16,
    /// Samples per second and channel.
    pub sample_rate: u32,
    /// Bits per sample.
    pub bits_per_sample: u16,
}

impl StorageConfig {
    /// The settings that `default` gives: 16-bit mono at 44.1 kHz, written to
    /// `output.wav`.
    pub open spec fn is_default(&self) -> bool {
        &&& self.output_path@ == "output.wav"@
        &&& self.save_to_file
        &&& self.output_sample_rate == 44100
        &&& self.output_channels == 1
        &&& self.output_bits_per_sample == 16
    }

    /// The format of the file to write, or `None` where nothing is written.
    pub open spec fn file_format(&self) -> Option<WavFormat> {
        if self.save_to_file {
            Some(
                WavFormat {
                    channels: self.output_channels,
                    sample_rate: self.output_sample_rate,
                    bits_per_sample: self.output_bits_per_sample,
                },
            )
        } else {
            None
        }
    }
}

impl Default for StorageConfig {
    fn default() -> (config: Self)
        ensures
            config.is_default(),
    {
        StorageConfig {
            output_path: "output.wav".to_string(),
            save_to_file: true,
            output_sample_rate: 44100,
            output_channels: 1,
            output_bits_per_sample: 16,
        }
    }
}

/// Collects every sample of a recording, in the order of arrival.
pub struct AudioStorage<S> {
    recorded_samples: Vec<S>,
    config: StorageConfig,
}

impl<S: Copy> AudioStorage<S> {
    /// The samples recorded so far, oldest first.
    pub closed spec fn recorded(&self) -> Seq<S> {
        self.recorded_samples@
    }

    /// The settings the storage was made with.
    pub closed spec fn settings(&self) -> StorageConfig {
        self.config
    }

    /// An empty storage with the default settings.
    pub fn new() -> (storage: Self)
        ensures
            storage.settings().is_default(),
            storage.recorded() == Seq::<S>::empty(),
    {
        Self::with_config(StorageConfig::default())
    }

    /// An empty storage with the given settings.
    pub fn with_config(config: StorageConfig) -> (storage: Self)
        ensures
            storage.settings() == config,
            storage.recorded() == Seq::<S>::empty(),
    {
        AudioStorage { recorded_samples: Vec::new(), config }
    }

    /// The settings the storage was made with.
    pub fn config(&self) -> (config: &StorageConfig)
        ensures
            *config == self.settings(),
    {
        &self.config
    }

    /// The samples recorded so far, oldest first.
    pub fn samples(&self) -> (samples: &Vec<S>)
        ensures
            samples@ == self.recorded(),
    {
        &self.recorded_samples
    }

    /// Appends `samples` to the recording.
    pub fn add_samples(&mut self, samples: &[S])
        ensures
            final(self).recorded() == old(self).recorded() + samples@,
            final(self).settings() == old(self).settings(),
    {
        let mut i: usize = 0;
        while i < samples.len()
            invariant
                i <= samples@.len(),
                self.recorded_samples@ == old(self).recorded_samples@ + samples@.subrange(
                    0,
                    i as int,
                ),
                self.config == old(self).config,
            decreases samples@.len() - i,
        {
            self.recorded_samples.push(samples[i]);
            i += 1;
        }
        assert(samples@.subrange(0, i as int) == samples@);
    }

    /// Tells what a save has to write: `None` where writing is switched off,
    /// otherwise the format in which `samples()` go to `config().output_path`.
    pub fn save(&self) -> (format: Option<WavFormat>)
        ensures
            format == self.settings().file_format(),
    {
        if !self.config.save_to_file {
            return None;
        }
        Some(
            WavFormat {
                channels: self.config.output_channels,
                sample_rate: self.config.output_sample_rate,
                bits_per_sample: self.config.output_bits_per_sample,
            },
        )
    }

    /// Forgets the recording.
    pub fn clear(&mut self)
        ensures
            final(self).recorded() == Seq::<S>::empty(),
            final(self).settings() == old(self).settings(),
    {
        self.recorded_samples.clear();
    }
}

} // verus!
