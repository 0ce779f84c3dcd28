use scribe::segmentation::{DominantSource, Segmenter};

fn rms(samples: &[f32]) -> f32 {
    if samples.is_empty() {
        return 0.0;
    }
    let sum_sq: f32 = samples.iter().map(|s| s * s).sum();
    (sum_sq / samples.len() as f32).sqrt()
}

/// The dominant source of a window, by RMS, ties going to the microphone.
fn dominant(mic: &[f32], sys: &[f32]) -> DominantSource {
    let mic_rms = rms(mic);
    let sys_rms = rms(sys);
    if mic_rms == 0.0 && sys_rms == 0.0 {
        DominantSource::Neither
    } else if mic_rms >= sys_rms {
        DominantSource::Mic
    } else {
        DominantSource::System
    }
}

struct Seg(Segmenter);

impl Seg {
    fn advance(&mut self, n_samples: usize, mic: &[f32], sys: &[f32]) -> bool {
        self.0.advance(n_samples, dominant(mic, sys))
    }

    fn reset(&mut self) {
        self.0.reset()
    }

    fn update_interval(&mut self, interval_seconds: f32, sample_rate: u32) {
        self.0.update_interval((interval_seconds * sample_rate as f32) as u64)
    }
}

fn seg(interval_s: f32) -> Seg {
    Seg(Segmenter::new((interval_s * 16_000 as f32) as u64))
}

fn samples(val: f32, n: usize) -> Vec<f32> {
    vec![val; n]
}

#[test]
fn no_flush_before_interval() {
    let mut s = seg(1.0);
    let flushed = s.advance(15_999, &samples(0.5, 15_999), &samples(0.1, 15_999));
    assert!(!flushed);
}

#[test]
fn flush_at_interval() {
    let mut s = seg(1.0);
    let flushed = s.advance(16_000, &samples(0.5, 16_000), &samples(0.1, 16_000));
    assert!(flushed);
}

#[test]
fn counter_resets_after_flush() {
    let mut s = seg(1.0);
    s.advance(16_000, &samples(0.5, 16_000), &samples(0.1, 16_000));
    let flushed = s.advance(1, &samples(0.5, 1), &samples(0.1, 1));
    assert!(!flushed);
}

#[test]
fn flush_on_dominant_source_switch() {
    let mut s = seg(60.0);
    s.advance(100, &samples(0.8, 100), &samples(0.1, 100));
    let flushed = s.advance(100, &samples(0.1, 100), &samples(0.8, 100));
    assert!(flushed);
}

#[test]
fn no_flush_when_source_stays_same() {
    let mut s = seg(60.0);
    s.advance(100, &samples(0.8, 100), &samples(0.1, 100));
    let flushed = s.advance(100, &samples(0.8, 100), &samples(0.1, 100));
    assert!(!flushed);
}

#[test]
fn no_flush_from_neither_to_source() {
    let mut s = seg(60.0);
    s.advance(100, &samples(0.0, 100), &samples(0.0, 100));
    let flushed = s.advance(100, &samples(0.8, 100), &samples(0.1, 100));
    assert!(!flushed);
}

#[test]
fn reset_clears_counter_and_dominant() {
    let mut s = seg(1.0);
    s.advance(15_000, &samples(0.8, 15_000), &samples(0.1, 15_000));
    s.reset();
    let flushed = s.advance(15_000, &samples(0.8, 15_000), &samples(0.1, 15_000));
    assert!(!flushed);
}

#[test]
fn update_interval_affects_flush_threshold() {
    let mut s = seg(10.0);
    s.update_interval(1.0, 16_000);
    let flushed = s.advance(16_000, &samples(0.5, 16_000), &samples(0.1, 16_000));
    assert!(flushed);
}

#[test]
fn equal_rms_prefers_mic() {
    let mut s = seg(60.0);
    s.advance(100, &samples(0.5, 100), &samples(0.5, 100));
    let flushed = s.advance(100, &samples(0.1, 100), &samples(0.8, 100));
    assert!(flushed);
}

// ── The counter and the dominant source on their own ─────────────────────────

#[test]
fn counter_accumulates_until_interval() {
    let mut s = Segmenter::new(10);
    assert!(!s.advance(4, DominantSource::Mic));
    assert_eq!(s.samples_since_flush(), 4);
    assert!(!s.advance(5, DominantSource::Mic));
    assert_eq!(s.samples_since_flush(), 9);
    assert!(s.advance(1, DominantSource::Mic));
    assert_eq!(s.samples_since_flush(), 0);
}

#[test]
fn switch_across_silence_still_flushes() {
    let mut s = Segmenter::new(1_000);
    assert!(!s.advance(1, DominantSource::System));
    assert!(!s.advance(1, DominantSource::Neither));
    // Silence in between keeps the last speaker: System -> Mic is a switch.
    assert!(s.advance(1, DominantSource::Mic));
    assert!(!s.advance(1, DominantSource::Neither));
    assert!(!s.advance(1, DominantSource::Mic));
    assert!(s.advance(1, DominantSource::System));
}

#[test]
fn mic_silence_system_flushes() {
    let mut s = seg(60.0);
    assert!(!s.advance(100, &samples(0.8, 100), &samples(0.1, 100)));
    assert!(!s.advance(100, &samples(0.0, 100), &samples(0.0, 100)));
    assert!(s.advance(100, &samples(0.1, 100), &samples(0.8, 100)));
}

#[test]
fn zero_interval_flushes_every_batch() {
    let mut s = Segmenter::new(0);
    assert!(s.advance(0, DominantSource::Neither));
    assert!(s.advance(3, DominantSource::Mic));
}
