//! Laws relating the stages: shapes survive coding round trips, sibling
//! analyses agree, and a run that feeds each stage the previous stage's
//! output never fails a shape check.
use vstd::prelude::*;
use crate::query::{frame_count, number_of_aperiodicities};
use crate::shape::{realizes, MatrixShape, ShapeError, MAX_LEN};
use crate::stage::{
    analysis_result, bins_for, coded_aperiodicity_result, coded_envelope_result,
    decoded_aperiodicity_result, decoded_envelope_result, synthesis_length, synthesis_result,
    track_result, valid_fft_size, waveform_result, SynthesisShape,
};

verus! {

/// At a positive sample rate the aperiodicity is coded into between zero
/// and five bands.
pub proof fn lemma_aperiodicity_bands(fs: int)
    requires
        fs > 0,
    ensures
        0 <= number_of_aperiodicities(fs) <= 5,
{
}

/// Coding two aperiodicity matrices at one sample rate yields the same
/// number of columns, the band count of the sample rate, whatever their
/// frame counts.
pub proof fn lemma_coded_aperiodicity_width<T>(
    first: Seq<Vec<T>>,
    first_length: i32,
    second: Seq<Vec<T>>,
    second_length: i32,
    fs: i32,
    fft_size: i32,
)
    requires
        coded_aperiodicity_result(first, first_length as int, fs as int, fft_size as int) is Ok,
        coded_aperiodicity_result(second, second_length as int, fs as int, fft_size as int) is Ok,
    ensures
        coded_aperiodicity_result(first, first_length as int, fs as int, fft_size as int)->Ok_0.cols
            == coded_aperiodicity_result(second, second_length as int, fs as int, fft_size as int)->Ok_0.cols,
        coded_aperiodicity_result(first, first_length as int, fs as int, fft_size as int)->Ok_0.cols
            == number_of_aperiodicities(fs as int),
        coded_aperiodicity_result(first, first_length as int, fs as int, fft_size as int)->Ok_0.rows
            == first_length,
        coded_aperiodicity_result(second, second_length as int, fs as int, fft_size as int)->Ok_0.rows
            == second_length,
{
    lemma_aperiodicity_bands(fs as int);
}

/// Decoding a coded aperiodicity matrix restores the shape of the matrix
/// that was coded: as many frames, as many bins.
pub proof fn lemma_aperiodicity_round_trip_shape<T>(
    aperiodicity: Seq<Vec<T>>,
    coded: Seq<Vec<T>>,
    f0_length: i32,
    fs: i32,
    fft_size: i32,
)
    requires
        coded_aperiodicity_result(aperiodicity, f0_length as int, fs as int, fft_size as int) is Ok,
        realizes(coded, coded_aperiodicity_result(aperiodicity, f0_length as int, fs as int, fft_size as int)->Ok_0),
    ensures
        decoded_aperiodicity_result(coded, f0_length as int, fs as int, fft_size as int) is Ok,
        realizes(aperiodicity, decoded_aperiodicity_result(coded, f0_length as int, fs as int, fft_size as int)->Ok_0),
{
    lemma_aperiodicity_bands(fs as int);
}

/// Decoding a coded spectrogram of at least one frame restores the shape
/// of the spectrogram that was coded, and reads back the number of
/// dimensions chosen at coding.
pub proof fn lemma_envelope_round_trip_shape<T>(
    spectrogram: Seq<Vec<T>>,
    coded: Seq<Vec<T>>,
    f0_length: i32,
    fs: i32,
    fft_size: i32,
    number_of_dimensions: i32,
)
    requires
        f0_length >= 1,
        coded_envelope_result(spectrogram, f0_length as int, fs as int, fft_size as int, number_of_dimensions as int) is Ok,
        realizes(
            coded,
            coded_envelope_result(spectrogram, f0_length as int, fs as int, fft_size as int, number_of_dimensions as int)->Ok_0,
        ),
    ensures
        decoded_envelope_result(coded, f0_length as int, fs as int, fft_size as int) is Ok,
        realizes(spectrogram, decoded_envelope_result(coded, f0_length as int, fs as int, fft_size as int)->Ok_0.shape),
        decoded_envelope_result(coded, f0_length as int, fs as int, fft_size as int)->Ok_0.number_of_dimensions
            == number_of_dimensions,
{
    assert(coded[0]@.len() == number_of_dimensions);
}

/// For any waveform and any pitch track of `n` frames, envelope and
/// aperiodicity estimation both yield `n` rows of `fft_size / 2 + 1` bins.
pub proof fn lemma_analysis_shape<T>(x: Seq<T>, fs: i32, temporal_positions: Seq<T>, f0: Seq<T>, fft_size: i32)
    requires
        fs > 0,
        x.len() <= MAX_LEN,
        f0.len() <= MAX_LEN,
        temporal_positions.len() == f0.len(),
        valid_fft_size(fft_size as int),
    ensures
        analysis_result(x.len() as int, fs as int, temporal_positions.len() as int, f0.len() as int, fft_size as int)
            == Ok::<MatrixShape, ShapeError>(MatrixShape { rows: f0.len() as usize, cols: bins_for(fft_size as int) as usize }),
{
}

/// A run that hands each stage what the previous one produced passes every
/// shape check: the waveform is accepted, the pitch track has at least one
/// frame, refinement keeps its length, both analyses yield frames by
/// `fft_size / 2 + 1` bins, both codings accept them, and synthesis with
/// the frame period in whole milliseconds recovers `fft_size` and produces
/// `frames * period_ms * fs / 1000` samples.
pub proof fn lemma_pipeline_shapes<T>(
    x: Seq<T>,
    fs: i32,
    frame_period_us: i32,
    fft_size: i32,
    number_of_dimensions: i32,
    temporal_positions: Seq<T>,
    f0: Seq<T>,
    refined_f0: Seq<T>,
    spectrogram: Seq<Vec<T>>,
    aperiodicity: Seq<Vec<T>>,
)
    requires
        fs > 0,
        frame_period_us > 0,
        x.len() <= MAX_LEN,
        valid_fft_size(fft_size as int),
        number_of_dimensions >= 1,
        frame_count(fs as int, x.len() as int, frame_period_us as int) <= MAX_LEN,
        temporal_positions.len() == frame_count(fs as int, x.len() as int, frame_period_us as int),
        f0.len() == frame_count(fs as int, x.len() as int, frame_period_us as int),
        refined_f0.len() == f0.len(),
        realizes(spectrogram, MatrixShape { rows: f0.len() as usize, cols: bins_for(fft_size as int) as usize }),
        realizes(aperiodicity, MatrixShape { rows: f0.len() as usize, cols: bins_for(fft_size as int) as usize }),
        synthesis_length(f0.len() as int, frame_period_us / 1000, fs as int) <= MAX_LEN,
    ensures
        f0.len() >= 1,
        waveform_result(x.len() as int, fs as int) == Ok::<usize, ShapeError>(x.len() as usize),
        track_result(x.len() as int, fs as int, temporal_positions.len() as int, f0.len() as int)
            == Ok::<usize, ShapeError>(f0.len() as usize),
        analysis_result(x.len() as int, fs as int, temporal_positions.len() as int, refined_f0.len() as int, fft_size as int)
            == Ok::<MatrixShape, ShapeError>(MatrixShape { rows: f0.len() as usize, cols: bins_for(fft_size as int) as usize }),
        coded_aperiodicity_result(aperiodicity, f0.len() as int, fs as int, fft_size as int) is Ok,
        coded_envelope_result(spectrogram, f0.len() as int, fs as int, fft_size as int, number_of_dimensions as int) is Ok,
        synthesis_result(refined_f0.len() as int, spectrogram, aperiodicity, frame_period_us / 1000, fs as int)
            == Ok::<SynthesisShape, ShapeError>(SynthesisShape {
                fft_size,
                y_length: synthesis_length(f0.len() as int, frame_period_us / 1000, fs as int) as usize,
            }),
{
    let len = x.len() as int;
    let n = f0.len() as int;
    let p = frame_period_us / 1000;
    assert(0 <= (1_000_000 * len) / (fs * frame_period_us)) by (nonlinear_arith)
        requires fs > 0, frame_period_us > 0, len >= 0;
    assert(n * p * fs >= 0) by (nonlinear_arith)
        requires n >= 0, p >= 0, fs > 0;
    assert(spectrogram[0]@.len() == bins_for(fft_size as int));
}

} // verus!
