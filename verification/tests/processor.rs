use audio_visualizer::processor::{
    peak_amplitude, AnalysisWindow, AudioAnalysisData, AudioProcessor,
};

fn bits_of(values: &[f32]) -> Vec<u32> {
    values.iter().map(|v| v.to_bits()).collect()
}

fn ramp(from: u32, count: usize) -> Vec<u32> {
    let mut out: Vec<u32> = Vec::new();
    let mut next: u32 = from;
    for _ in 0..count {
        out.push(next);
        next += 1;
    }
    out
}

#[test]
fn exactly_one_window_from_exactly_n_samples() {
    let n: usize = 1024;
    let mut processor = AudioProcessor::new(n);
    let samples: Vec<u32> = ramp(1, n);
    let window: AnalysisWindow = processor.process_samples(&samples).expect("a full window");
    assert_eq!(window.samples, samples);
    assert_eq!(window.fft_size, n);
    assert_eq!(processor.buffered_len(), 0);
    assert!(processor.process_samples(&[]).is_none());

    let spectrum: Vec<u32> = ramp(5000, n);
    let record: AudioAnalysisData = window.into_record(77, spectrum.clone()).expect("a record");
    assert_eq!(record.frequency_magnitudes.len(), n / 2 + 1);
    assert_eq!(record.frequency_magnitudes, spectrum[..513].to_vec());
    assert_eq!(record.fft_size, 1024);
    assert_eq!(record.rms_amplitude, 77);
}

#[test]
fn small_chunks_accumulate_until_a_window_is_full() {
    let mut processor = AudioProcessor::new(8);
    assert!(processor.process_samples(&[1, 2, 3]).is_none());
    assert_eq!(processor.buffered_len(), 3);
    assert!(processor.process_samples(&[4, 5, 6]).is_none());
    assert_eq!(processor.buffered_len(), 6);
    assert!(processor.process_samples(&[7]).is_none());
    assert_eq!(processor.buffered_len(), 7);
    let window: AnalysisWindow = processor.process_samples(&[8, 9, 10]).expect("a full window");
    assert_eq!(window.samples, vec![1, 2, 3, 4, 5, 6, 7, 8]);
    assert_eq!(processor.buffered_len(), 2);
    assert!(processor.process_samples(&[11]).is_none());
    let next: AnalysisWindow =
        processor.process_samples(&[12, 13, 14, 15, 16]).expect("a second window");
    assert_eq!(next.samples, vec![9, 10, 11, 12, 13, 14, 15, 16]);
    assert_eq!(processor.buffered_len(), 0);
}

#[test]
fn one_call_cuts_at_most_one_window() {
    let mut processor = AudioProcessor::new(2);
    let first: AnalysisWindow = processor.process_samples(&[1, 2, 3, 4, 5]).expect("a window");
    assert_eq!(first.samples, vec![1, 2]);
    assert_eq!(processor.buffered_len(), 3);
    let second: AnalysisWindow = processor.process_samples(&[]).expect("a window");
    assert_eq!(second.samples, vec![3, 4]);
    assert_eq!(processor.buffered_len(), 1);
    assert!(processor.process_samples(&[]).is_none());
}

#[test]
fn new_processor_holds_nothing() {
    let processor = AudioProcessor::new(1024);
    assert_eq!(processor.fft_size(), 1024);
    assert_eq!(processor.buffered_len(), 0);
}

#[test]
fn window_of_length_zero_gives_no_record() {
    let mut processor = AudioProcessor::new(0);
    let window: AnalysisWindow = processor.process_samples(&[]).expect("an empty window");
    assert!(window.samples.is_empty());
    assert_eq!(window.peak_amplitude, 0);
    assert!(window.into_record(0, Vec::new()).is_none());
}

#[test]
fn window_of_length_one() {
    let mut processor = AudioProcessor::new(1);
    let window: AnalysisWindow = processor.process_samples(&[0xBF00_0000]).expect("a window");
    assert_eq!(window.peak_amplitude, 0x3F00_0000);
    let record: AudioAnalysisData = window.into_record(1, vec![9]).expect("a record");
    assert_eq!(record.frequency_magnitudes, vec![9]);
}

#[test]
fn peak_of_window_is_measured_on_raw_samples() {
    let samples: Vec<u32> = bits_of(&[0.1, -0.75, 0.5, -0.2]);
    let mut processor = AudioProcessor::new(4);
    let window: AnalysisWindow = processor.process_samples(&samples).expect("a window");
    assert_eq!(f32::from_bits(window.peak_amplitude), 0.75);
}

#[test]
fn peak_is_the_greatest_absolute_value() {
    let cases: Vec<Vec<f32>> = vec![
        vec![],
        vec![0.0],
        vec![-0.0],
        vec![0.25, -0.5, 0.125],
        vec![-1.0, 1.0],
        vec![1.0e-40, -2.0e-40],
        vec![f32::NEG_INFINITY, 3.0],
        vec![f32::MAX, f32::MIN],
        vec![-3.5, 2.0, 3.25],
    ];
    for case in cases {
        let mut expected: f32 = 0.0;
        for x in &case {
            if x.abs() > expected {
                expected = x.abs();
            }
        }
        assert_eq!(peak_amplitude(&bits_of(&case)), expected.to_bits(), "{:?}", case);
    }
}

#[test]
fn peak_exact_values() {
    assert_eq!(peak_amplitude(&[]), 0);
    assert_eq!(peak_amplitude(&[0x3E80_0000, 0xBF00_0000, 0x3E00_0000]), 0x3F00_0000);
    assert_eq!(peak_amplitude(&[0x8000_0000]), 0);
    assert_eq!(peak_amplitude(&[0xFF80_0000, 0x4040_0000]), 0x7F80_0000);
}

#[test]
fn peak_skips_a_nan() {
    let samples: Vec<u32> = vec![0.5f32.to_bits(), f32::NAN.to_bits(), 0xFFC0_0001, 0x7F80_0001];
    assert_eq!(peak_amplitude(&samples), 0.5f32.to_bits());
    assert_eq!(peak_amplitude(&[f32::NAN.to_bits()]), 0);
}

#[test]
fn peak_of_a_constant_chunk_is_its_amplitude() {
    let a: f32 = 0.3;
    let samples: Vec<u32> = vec![a.to_bits(); 1024];
    assert_eq!(f32::from_bits(peak_amplitude(&samples)), a);
    let zeros: Vec<u32> = vec![0.0f32.to_bits(); 1024];
    assert_eq!(f32::from_bits(peak_amplitude(&zeros)), 0.0);
}

#[test]
fn record_keeps_the_lower_half_of_the_spectrum() {
    let record: AudioAnalysisData =
        AudioAnalysisData::assemble(8, 3, 4, vec![10, 11, 12, 13, 14, 15, 16, 17])
            .expect("a record");
    assert_eq!(record.frequency_magnitudes, vec![10, 11, 12, 13, 14]);
    assert_eq!(record.peak_amplitude, 3);
    assert_eq!(record.rms_amplitude, 4);
    assert_eq!(record.fft_size, 8);
}

#[test]
fn record_needs_a_magnitude_for_every_bin() {
    assert!(AudioAnalysisData::assemble(8, 0, 0, vec![1, 2, 3, 4]).is_none());
    assert!(AudioAnalysisData::assemble(8, 0, 0, Vec::new()).is_none());
    let exact: AudioAnalysisData =
        AudioAnalysisData::assemble(8, 0, 0, vec![1, 2, 3, 4, 5]).expect("a record");
    assert_eq!(exact.frequency_magnitudes, vec![1, 2, 3, 4, 5]);
    let odd: AudioAnalysisData =
        AudioAnalysisData::assemble(7, 0, 0, vec![1, 2, 3, 4, 5, 6, 7]).expect("a record");
    assert_eq!(odd.frequency_magnitudes, vec![1, 2, 3, 4]);
}

#[test]
fn carry_stays_short_with_chunks_of_window_length() {
    let mut processor = AudioProcessor::new(4);
    let mut windows: usize = 0;
    for round in 0..10u32 {
        let chunk: Vec<u32> = ramp(round * 3, 3);
        if processor.process_samples(&chunk).is_some() {
            windows += 1;
            assert!(processor.buffered_len() < 4);
        }
    }
    assert_eq!(windows, 7);
    assert_eq!(processor.buffered_len(), 2);
}

#[test]
fn peak_agrees_with_comparing_numbers_on_many_patterns() {
    let mut state: u32 = 0x1234_5678;
    for _ in 0..2000 {
        let mut samples: Vec<u32> = Vec::new();
        let mut expected: f32 = 0.0;
        for _ in 0..16 {
            state = state.wrapping_mul(1_664_525).wrapping_add(1_013_904_223);
            samples.push(state);
            let abs_sample: f32 = f32::from_bits(state).abs();
            if abs_sample > expected {
                expected = abs_sample;
            }
        }
        assert_eq!(peak_amplitude(&samples), expected.to_bits(), "{:?}", samples);
    }
}
