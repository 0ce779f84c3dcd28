//! Segment boundaries for transcription.
//!
//! Audio is flushed to the transcription service when the flush interval has
//! elapsed or when the dominant source (the stream with the higher RMS level)
//! switches between microphone and system audio.  Which source dominates a
//! window is measured by the caller; this module keeps the counter and the
//! last dominant source.
use vstd::prelude::*;

verus! {

/// Which audio source is currently dominant.
#[derive(Debug, Clone, Copy, PartialEq, Eq, Structural)]
pub enum DominantSource {
    Mic,
    System,
    Neither,
}

/// Whether going from `current` (the last real source seen) to `next` is a
/// switch of speaker: both are a real source and they differ.  A silent batch,
/// or the first source after a reset, is no switch.
pub open spec fn is_switch(current: DominantSource, next: DominantSource) -> bool {
    next != DominantSource::Neither && current != DominantSource::Neither && next != current
}

/// Tracks segment boundaries based on a sample counter and dominant-input
/// switches.
pub struct Segmenter {
    /// Segment flush interval in samples (at the stream sample rate).
    interval_samples: u64,
    samples_since_flush: u64,
    current_dominant: DominantSource,
}

impl Segmenter {
    /// The flush interval in samples.
    pub closed spec fn interval_spec(self) -> u64 {
        self.interval_samples
    }

    /// Samples fed since the last flush.
    pub closed spec fn count_spec(self) -> u64 {
        self.samples_since_flush
    }

    /// The dominant source of the last window that had one.
    pub closed spec fn dominant_spec(self) -> DominantSource {
        self.current_dominant
    }

    /// A segmenter that flushes every `interval_samples` samples.
    pub fn new(interval_samples: u64) -> (s: Segmenter)
        ensures
            s.interval_spec() == interval_samples,
            s.count_spec() == 0,
            s.dominant_spec() == DominantSource::Neither,
    {
        Segmenter {
            interval_samples,
            samples_since_flush: 0,
            current_dominant: DominantSource::Neither,
        }
    }

    /// Feed a batch of `n_samples` samples whose dominant source is
    /// `dominant`.  Returns `true` if a segment boundary has been reached and
    /// the buffers should be flushed to transcription; the counter then starts
    /// again from zero.  A silent batch (`Neither`) keeps the last real
    /// source, so a flip between microphone and system audio across silence
    /// is still a switch.
    pub fn advance(&mut self, n_samples: usize, dominant: DominantSource) -> (flush: bool)
        requires
            old(self).count_spec() + n_samples <= u64::MAX,
        ensures
            flush == (is_switch(old(self).dominant_spec(), dominant) || old(self).count_spec()
                + n_samples >= old(self).interval_spec()),
            final(self).count_spec() == if flush {
                0
            } else {
                old(self).count_spec() + n_samples
            },
            final(self).dominant_spec() == if dominant == DominantSource::Neither {
                old(self).dominant_spec()
            } else {
                dominant
            },
            final(self).interval_spec() == old(self).interval_spec(),
    {
        self.samples_since_flush = self.samples_since_flush + n_samples as u64;
        let source_switched = dominant != DominantSource::Neither && self.current_dominant
            != DominantSource::Neither && dominant != self.current_dominant;
        if dominant != DominantSource::Neither {
            self.current_dominant = dominant;
        }
        if source_switched || self.samples_since_flush >= self.interval_samples {
            self.samples_since_flush = 0;
            true
        } else {
            false
        }
    }

    /// Forget the counter and the dominant source.
    pub fn reset(&mut self)
        ensures
            final(self).count_spec() == 0,
            final(self).dominant_spec() == DominantSource::Neither,
            final(self).interval_spec() == old(self).interval_spec(),
    {
        self.samples_since_flush = 0;
        self.current_dominant = DominantSource::Neither;
    }

    /// Change the flush interval; the counter and the dominant source are kept.
    pub fn update_interval(&mut self, interval_samples: u64)
        ensures
            final(self).interval_spec() == interval_samples,
            final(self).count_spec() == old(self).count_spec(),
            final(self).dominant_spec() == old(self).dominant_spec(),
    {
        self.interval_samples = interval_samples;
    }

    /// Samples fed since the last flush.
    pub fn samples_since_flush(&self) -> (n: u64)
        ensures
            n == self.count_spec(),
    {
        self.samples_since_flush
    }
}

} // verus!
