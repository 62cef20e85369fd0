use easyfft::dyn_size::DynFft;
use spectro::analysis::{combine_channels, noise_gate};
use spectro::{
    decay_for_fps, geo_mean, neg_geo_mean, outerleave, AnalysisError, FreqIntensity, SpectrumMemory,
    FREQ_RANGE_END, FREQ_RANGE_START, MIN_DB,
};

#[test]
fn mean() {
    assert_eq!(3, geo_mean(1, 9))
}

#[test]
fn geo_mean_rounds_down() {
    assert_eq!(geo_mean(2, 8), 4);
    assert_eq!(geo_mean(2, 3), 2);
    assert_eq!(geo_mean(0, 7), 0);
    assert_eq!(geo_mean(u32::MAX, u32::MAX), u32::MAX);
}

#[test]
fn blend_is_commutative_and_keeps_equal_levels() {
    assert_eq!(neg_geo_mean(-20, -20), -20);
    assert_eq!(neg_geo_mean(-100, -400), -200);
    assert_eq!(neg_geo_mean(-400, -100), -200);
    let a = FreqIntensity(vec![(1, -2000), (2, -100)]);
    let b = FreqIntensity(vec![(1, -2000), (2, -400)]);
    assert_eq!(a.combine_mean(b).0, vec![(1, -2000), (2, -200)]);
}

#[test]
fn blend_floors_levels_first() {
    let a = FreqIntensity(vec![(5, i32::MIN), (6, -9000)]);
    let b = FreqIntensity(vec![(5, -900), (6, -3600)]);
    assert_eq!(a.combine_mean(b).0, vec![(5, -1800), (6, -3600)]);
}

#[test]
fn demultiplex_splits_frames() {
    let out = outerleave(vec![1, 2, 3, 4, 5, 6, 7], 2).unwrap();
    assert_eq!(out, vec![vec![1, 3, 5, 7], vec![2, 4, 6]]);
    let one = outerleave(vec![1i16, 2, 3], 1).unwrap();
    assert_eq!(one, vec![vec![1, 2, 3]]);
    let empty: Vec<Vec<i32>> = outerleave(Vec::new(), 3).unwrap();
    assert_eq!(empty, vec![Vec::<i32>::new(), Vec::new(), Vec::new()]);
}

#[test]
fn zero_channels_fail() {
    assert_eq!(outerleave(vec![1.0f32, 2.0], 0), Err(AnalysisError::ZeroChannels));
    assert_eq!(outerleave(Vec::<i32>::new(), 0), Err(AnalysisError::ZeroChannels));
    assert!(matches!(combine_channels(Vec::new()), Err(AnalysisError::ZeroChannels)));
}

#[test]
fn combine_channels_folds_left() {
    let one = combine_channels(vec![FreqIntensity(vec![(1, -9000)])]).unwrap();
    assert_eq!(one.0, vec![(1, -9000)]);
    let three = combine_channels(vec![
        FreqIntensity(vec![(1, -100)]),
        FreqIntensity(vec![(1, -400)]),
        FreqIntensity(vec![(1, -800)]),
    ])
    .unwrap();
    assert_eq!(three.0, vec![(1, -400)]);
}

#[test]
fn noise_gate_silences_quiet_bins() {
    assert_eq!(noise_gate(vec![100, 19, 20, 21, 0]), vec![100, 0, 20, 21, 0]);
    assert_eq!(noise_gate(vec![7]), vec![7]);
    assert_eq!(noise_gate(Vec::new()), Vec::<u64>::new());
    assert_eq!(noise_gate(vec![u64::MAX, u64::MAX / 5 - 1, u64::MAX / 5]), vec![u64::MAX, 0, u64::MAX / 5]);
}

#[test]
fn stateless_sections_are_ordered_inside_range() {
    let centers = FreqIntensity::stateless_log_sections(12, FREQ_RANGE_START, FREQ_RANGE_END);
    assert_eq!(
        centers,
        vec![309576, 362244, 414912, 467581, 520249, 572917, 625586, 678254, 730922, 783591, 836259, 888927]
    );
    for w in centers.windows(2) {
        assert!(w[0] < w[1]);
    }
    assert!(centers.iter().all(|c| *c > FREQ_RANGE_START && *c < FREQ_RANGE_END));
    assert_eq!(FreqIntensity::stateless_log_sections(1, 0, 10), vec![5]);
    assert_eq!(FreqIntensity::stateless_log_sections(0, 0, 10), Vec::<i32>::new());
}

#[test]
fn log_sections_take_band_maximum() {
    let f = FreqIntensity(vec![(0, -3000), (10, -500), (20, -700), (25, -100), (50, -2000)]);
    // Bands over [0, 60]: [0, 20), [20, 40), [40, 60].
    let r = f.log_sections(3, 0, 60);
    assert_eq!(r, vec![(10, -500), (30, -100), (50, -2000)]);
}

#[test]
fn empty_band_falls_back_to_nearest() {
    let f = FreqIntensity(vec![(100, -500), (400, -900)]);
    // Band [0, 100) holds nothing; its center 50 is nearest to 100.
    assert_eq!(f.range_mean_weight(0, 100), (100, -500));
    // Band [300, 320) holds nothing; center 310 is nearest to 400.
    assert_eq!(f.range_mean_weight(300, 320), (400, -900));
    // A tie goes to the first entry.
    assert_eq!(f.get_nearest_freq_log(250), (100, -500));
}

#[test]
fn empty_analysis_bins_to_floor() {
    let f = FreqIntensity(Vec::new());
    assert!(f.is_empty());
    assert_eq!(f.len(), 0);
    let r = f.log_sections(4, FREQ_RANGE_START, FREQ_RANGE_END);
    assert_eq!(r, vec![(MIN_DB, MIN_DB); 4]);
}

#[test]
fn max_takes_last_loudest() {
    let f = FreqIntensity(vec![(1, -100), (2, -50), (3, -50), (4, -900)]);
    assert_eq!(f.max(), (3, -50));
    assert_eq!(FreqIntensity(Vec::new()).max(), (MIN_DB, MIN_DB));
}

#[test]
fn push_rises_to_reading_only() {
    let mut m = SpectrumMemory::new(vec![10, 20, 30], 50);
    assert_eq!(m.weights, vec![(10, MIN_DB), (20, MIN_DB), (30, MIN_DB)]);
    m.push(vec![(0, -1000), (0, -5000), (0, -3600)]);
    assert_eq!(m.weights, vec![(10, -1000), (20, MIN_DB), (30, MIN_DB)]);
    m.push(vec![(0, -2000), (0, -800), (0, -3600)]);
    assert_eq!(m.weights, vec![(10, -1000), (20, -800), (30, MIN_DB)]);
}

#[test]
fn ticks_decay_linearly_to_floor() {
    let mut m = SpectrumMemory::new(vec![10, 20], decay_for_fps(60));
    assert_eq!(m.decay, 50);
    m.push(vec![(0, -3480), (0, -600)]);
    m.tick();
    assert_eq!(m.weights, vec![(10, -3530), (20, -650)]);
    m.tick();
    assert_eq!(m.weights, vec![(10, -3580), (20, -700)]);
    m.tick();
    assert_eq!(m.weights, vec![(10, MIN_DB), (20, -750)]);
    for _ in 0..100 {
        m.tick();
    }
    assert_eq!(m.weights, vec![(10, MIN_DB), (20, MIN_DB)]);
}

#[test]
fn decay_scales_with_frame_rate() {
    assert_eq!(decay_for_fps(30), 100);
    assert_eq!(decay_for_fps(60), 50);
    assert_eq!(decay_for_fps(7), 428);
}

fn log_freq(hz: f64) -> i32 {
    (hz.log2() * 65536.0).round() as i32
}

fn to_fixed(amp: f32) -> u64 {
    (amp as f64 * 4294967296.0).round() as u64
}

fn to_db(fixed: u64) -> i32 {
    if fixed == 0 {
        i32::MIN
    } else {
        (1000.0 * (fixed as f64 / 4294967296.0).log10()).round() as i32
    }
}

#[test]
fn pure_tone_lights_its_band() {
    let n: usize = 1024;
    let rate = 44100.0f64;
    let samples: Vec<f32> = (0..n)
        .map(|i| (2.0 * std::f64::consts::PI * 440.0 * i as f64 / rate).sin() as f32)
        .collect();
    let channels = outerleave(samples, 1).unwrap();
    let spectra: Vec<FreqIntensity> = channels
        .iter()
        .map(|ch| {
            let fft = ch[..].fft();
            let amps: Vec<u64> = (0..n / 2).map(|i| to_fixed(2.0 * fft[i].norm() / n as f32)).collect();
            let gated = noise_gate(amps);
            FreqIntensity(
                (0..n / 2).map(|i| (log_freq(i as f64 / n as f64 * rate), to_db(gated[i]))).collect(),
            )
        })
        .collect();
    let combined = combine_channels(spectra).unwrap();
    let loudest = combined.max().1;
    let bands = combined.log_sections(12, FREQ_RANGE_START, FREQ_RANGE_END);
    assert_eq!(bands.len(), 12);
    // 440 Hz lies in the sixth band.
    assert!(bands[5].0 < log_freq(440.0) + 40000 && bands[5].0 > log_freq(440.0) - 40000);
    assert_eq!(bands[5].1, loudest);
    let mut memory = SpectrumMemory::new(
        FreqIntensity::stateless_log_sections(12, FREQ_RANGE_START, FREQ_RANGE_END),
        decay_for_fps(60),
    );
    memory.tick();
    memory.push(bands);
    assert_eq!(memory.weights[5].1, loudest);
    assert!(loudest > -1000);
    assert_eq!(memory.weights[4].1, MIN_DB);
    assert_eq!(memory.weights[6].1, MIN_DB);
}
