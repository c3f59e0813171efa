use rsworld::query::{get_number_of_aperiodicities, get_samples_for_dio, get_samples_for_harvest};
use rsworld::shape::{new_matrix, MatrixShape};
use rsworld::stage::code_aperiodicity_shape;

#[test]
fn test_get_number_of_aperiodicities() {
    let fs = 44100;
    let n_aperiodicities = get_number_of_aperiodicities(fs);
    assert_eq!(n_aperiodicities, 5);
}

#[test]
fn lib_test_get_number_of_aperiodicities() {
    let fs = 44100;
    assert_eq!(get_number_of_aperiodicities(fs), 5);
}

#[test]
fn number_of_aperiodicities_follows_sample_rate() {
    assert_eq!(get_number_of_aperiodicities(48000), 5);
    assert_eq!(get_number_of_aperiodicities(36000), 5);
    assert_eq!(get_number_of_aperiodicities(35999), 4);
    assert_eq!(get_number_of_aperiodicities(24000), 3);
    assert_eq!(get_number_of_aperiodicities(16000), 1);
    assert_eq!(get_number_of_aperiodicities(12000), 1);
    assert_eq!(get_number_of_aperiodicities(11999), 0);
    assert_eq!(get_number_of_aperiodicities(8000), 0);
    assert_eq!(get_number_of_aperiodicities(1), 0);
}

#[test]
fn test_get_samples_for_dio() {
    let fs = 44100;
    let x_length = 256;
    // 5.0 ms
    let frame_period = 5000;
    let samples = get_samples_for_dio(fs, x_length, frame_period);
    assert_eq!(samples, 2);
}

#[test]
fn test_get_samples_for_harvest() {
    let fs = 44100;
    let x_length = 256;
    // 5.0 ms
    let frame_period = 5000;
    let samples = get_samples_for_harvest(fs, x_length, frame_period);
    assert_eq!(samples, 2);
}

#[test]
fn frame_count_counts_the_frame_at_time_zero() {
    assert_eq!(get_samples_for_dio(44100, 0, 5000), 1);
    assert_eq!(get_samples_for_harvest(44100, 0, 5000), 1);
    // 441 samples are exactly two periods of 5 ms.
    assert_eq!(get_samples_for_dio(44100, 441, 5000), 3);
    assert_eq!(get_samples_for_dio(44100, 440, 5000), 2);
    // One second at 16 kHz with a 5.8 ms period.
    assert_eq!(get_samples_for_harvest(16000, 16000, 5800), 173);
    assert_eq!(get_samples_for_dio(i32::MAX, i32::MAX, 1000), 1001);
}

#[test]
fn test_code_aperiodicity() {
    let fs = 44100_i32;
    let f0_length = 2_i32;
    let fft_size = 2048_i32;
    let aperiodicity = vec![vec![0.999999999999; (fft_size / 2 + 1) as usize]; f0_length as usize];
    let n_aperiodicity = get_number_of_aperiodicities(fs);
    let shape = code_aperiodicity_shape(&aperiodicity, f0_length, fs, fft_size).unwrap();
    assert_eq!(shape, MatrixShape { rows: f0_length as usize, cols: n_aperiodicity as usize });
    let coded_aperiodicity = new_matrix(shape, 0.0_f64);
    assert_eq!(coded_aperiodicity.len(), f0_length as usize);
    assert_eq!(coded_aperiodicity[0].len(), n_aperiodicity as usize);
}
