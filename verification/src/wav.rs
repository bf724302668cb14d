//! The WAVE format of speech responses.
use vstd::prelude::*;

verus! {

/// The layout of the samples of a WAVE file.
#[derive(Debug)]
pub struct WavFormat {
    pub channels: u16,
    pub sample_rate: u32,
    pub bits_per_sample: u16,
    /// Integer samples (PCM); otherwise IEEE floats.
    pub integer_samples: bool,
}

/// Speech is written as mono 16-bit integer PCM at the synthesizer's rate.
pub fn wav_format(sample_rate: u32) -> (f: WavFormat)
    ensures
        f.channels == 1,
        f.sample_rate == sample_rate,
        f.bits_per_sample == 16,
        f.integer_samples,
{
    WavFormat { channels: 1, sample_rate, bits_per_sample: 16, integer_samples: true }
}

} // verus!
