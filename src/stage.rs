//! The shape of every pipeline stage's output, derived from its inputs.
//!
//! Each function here checks the buffers that one backend routine is about
//! to read and returns the shape of the buffer it will write, or the reason
//! the call must not be made. The element type is left open: these checks
//! read lengths only, never samples.
use vstd::prelude::*;
use crate::query::{get_number_of_aperiodicities, number_of_aperiodicities};
use crate::shape::{check_rows, rows_result, MatrixShape, ShapeError, MAX_LEN};

verus! {

/// Shape of the spectral envelope once decoded, with the number of coded
/// dimensions read off the coded matrix.
#[derive(Clone, Copy, Debug, PartialEq, Eq, Structural)]
pub struct EnvelopeDecoding {
    pub shape: MatrixShape,
    pub number_of_dimensions: i32,
}

/// FFT size and output sample count of a synthesis call.
#[derive(Clone, Copy, Debug, PartialEq, Eq, Structural)]
pub struct SynthesisShape {
    pub fft_size: i32,
    pub y_length: usize,
}

/// An FFT size the bin convention can describe: positive and even.
pub open spec fn valid_fft_size(fft_size: int) -> bool {
    fft_size >= 2 && fft_size % 2 == 0
}

/// Number of frequency bins of a spectrum computed with `fft_size` points.
pub open spec fn bins_for(fft_size: int) -> int {
    fft_size / 2 + 1
}

/// Outcome of checking a waveform and a pitch track of `f0_len` frames with
/// `positions_len` temporal positions: the frame count.
pub open spec fn track_result(x_len: int, fs: int, positions_len: int, f0_len: int) -> Result<usize, ShapeError> {
    if fs <= 0 {
        Err(ShapeError::InvalidSampleRate)
    } else if x_len > MAX_LEN || f0_len > MAX_LEN {
        Err(ShapeError::TooLarge)
    } else if positions_len != f0_len {
        Err(ShapeError::FrameCount { expected: f0_len as usize, found: positions_len as usize })
    } else {
        Ok(f0_len as usize)
    }
}

/// Outcome for a per-frame spectral analysis (envelope or aperiodicity):
/// one row per frame, one column per bin of `fft_size`.
pub open spec fn analysis_result(x_len: int, fs: int, positions_len: int, f0_len: int, fft_size: int) -> Result<MatrixShape, ShapeError> {
    match track_result(x_len, fs, positions_len, f0_len) {
        Err(e) => Err(e),
        Ok(n) => if !valid_fft_size(fft_size) {
            Err(ShapeError::InvalidFftSize)
        } else {
            Ok(MatrixShape { rows: n, cols: bins_for(fft_size) as usize })
        },
    }
}

fn bins_of(fft_size: i32) -> (r: Result<usize, ShapeError>)
    ensures
        valid_fft_size(fft_size as int) ==> r == Ok::<usize, ShapeError>(bins_for(fft_size as int) as usize),
        !valid_fft_size(fft_size as int) ==> r == Err::<usize, ShapeError>(ShapeError::InvalidFftSize),
{
    if fft_size >= 2 && fft_size % 2 == 0 {
        Ok((fft_size / 2 + 1) as usize)
    } else {
        Err(ShapeError::InvalidFftSize)
    }
}

/// Checks the inputs of pitch refinement and returns the length of the
/// refined track, which equals that of the coarse one.
pub fn stonemask_shape<T>(x: &Vec<T>, fs: i32, temporal_positions: &Vec<T>, f0: &Vec<T>) -> (r: Result<usize, ShapeError>)
    ensures
        r == track_result(x@.len() as int, fs as int, temporal_positions@.len() as int, f0@.len() as int),
{
    if fs <= 0 {
        Err(ShapeError::InvalidSampleRate)
    } else if x.len() > MAX_LEN || f0.len() > MAX_LEN {
        Err(ShapeError::TooLarge)
    } else if temporal_positions.len() != f0.len() {
        Err(ShapeError::FrameCount { expected: f0.len(), found: temporal_positions.len() })
    } else {
        Ok(f0.len())
    }
}

fn analysis_shape<T>(x: &Vec<T>, fs: i32, temporal_positions: &Vec<T>, f0: &Vec<T>, fft_size: i32) -> (r: Result<MatrixShape, ShapeError>)
    ensures
        r == analysis_result(x@.len() as int, fs as int, temporal_positions@.len() as int, f0@.len() as int, fft_size as int),
{
    let rows: usize = match stonemask_shape(x, fs, temporal_positions, f0) {
        Ok(n) => n,
        Err(e) => return Err(e),
    };
    match bins_of(fft_size) {
        Ok(cols) => Ok(MatrixShape { rows, cols }),
        Err(e) => Err(e),
    }
}

/// Checks the inputs of spectral-envelope estimation and returns the shape
/// of the spectrogram: one row per frame, `fft_size / 2 + 1` bins per row.
pub fn cheaptrick_shape<T>(x: &Vec<T>, fs: i32, temporal_positions: &Vec<T>, f0: &Vec<T>, fft_size: i32) -> (r: Result<MatrixShape, ShapeError>)
    ensures
        r == analysis_result(x@.len() as int, fs as int, temporal_positions@.len() as int, f0@.len() as int, fft_size as int),
{
    analysis_shape(x, fs, temporal_positions, f0, fft_size)
}

/// Checks the inputs of aperiodicity estimation and returns the shape of
/// the aperiodicity matrix: one row per frame, `fft_size / 2 + 1` bins.
pub fn d4c_shape<T>(x: &Vec<T>, fs: i32, temporal_positions: &Vec<T>, f0: &Vec<T>, fft_size: i32) -> (r: Result<MatrixShape, ShapeError>)
    ensures
        r == analysis_result(x@.len() as int, fs as int, temporal_positions@.len() as int, f0@.len() as int, fft_size as int),
{
    analysis_shape(x, fs, temporal_positions, f0, fft_size)
}
/// Outcome of checking a waveform of `x_len` samples at sample rate `fs`
/// before a pitch estimator reads it: the sample count.
pub open spec fn waveform_result(x_len: int, fs: int) -> Result<usize, ShapeError> {
    if fs <= 0 {
        Err(ShapeError::InvalidSampleRate)
    } else if x_len > MAX_LEN {
        Err(ShapeError::TooLarge)
    } else {
        Ok(x_len as usize)
    }
}

/// Checks that a sample rate is positive, before anything is derived from it.
pub fn check_sample_rate(fs: i32) -> (r: Result<(), ShapeError>)
    ensures
        r == (if fs > 0 { Ok::<(), ShapeError>(()) } else { Err(ShapeError::InvalidSampleRate) }),
{
    if fs > 0 {
        Ok(())
    } else {
        Err(ShapeError::InvalidSampleRate)
    }
}

/// Checks a waveform about to be read by a pitch estimator and returns its
/// sample count.
pub fn waveform_shape<T>(x: &Vec<T>, fs: i32) -> (r: Result<usize, ShapeError>)
    ensures
        r == waveform_result(x@.len() as int, fs as int),
{
    if fs <= 0 {
        Err(ShapeError::InvalidSampleRate)
    } else if x.len() > MAX_LEN {
        Err(ShapeError::TooLarge)
    } else {
        Ok(x.len())
    }
}

/// Outcome of checking the parameters shared by the coding stages and that
/// `m` holds `f0_length` frames.
pub open spec fn codec_frames_result<T>(m: Seq<Vec<T>>, f0_length: int, fs: int, fft_size: int) -> Result<(), ShapeError> {
    if fs <= 0 {
        Err(ShapeError::InvalidSampleRate)
    } else if !valid_fft_size(fft_size) {
        Err(ShapeError::InvalidFftSize)
    } else if f0_length < 0 {
        Err(ShapeError::NegativeFrameCount)
    } else if m.len() != f0_length {
        Err(ShapeError::FrameCount { expected: f0_length as usize, found: m.len() as usize })
    } else {
        Ok(())
    }
}

/// Outcome for coding an aperiodicity matrix: one row per frame, one column
/// per coded band of `fs`.
pub open spec fn coded_aperiodicity_result<T>(aperiodicity: Seq<Vec<T>>, f0_length: int, fs: int, fft_size: int) -> Result<MatrixShape, ShapeError> {
    match codec_frames_result(aperiodicity, f0_length, fs, fft_size) {
        Err(e) => Err(e),
        Ok(_) => match rows_result(aperiodicity, bins_for(fft_size)) {
            Err(e) => Err(e),
            Ok(_) => Ok(MatrixShape { rows: f0_length as usize, cols: number_of_aperiodicities(fs) as usize }),
        },
    }
}

/// Outcome for decoding a coded aperiodicity matrix: one row per frame, one
/// column per bin of `fft_size`.
pub open spec fn decoded_aperiodicity_result<T>(coded: Seq<Vec<T>>, f0_length: int, fs: int, fft_size: int) -> Result<MatrixShape, ShapeError> {
    match codec_frames_result(coded, f0_length, fs, fft_size) {
        Err(e) => Err(e),
        Ok(_) => match rows_result(coded, number_of_aperiodicities(fs)) {
            Err(e) => Err(e),
            Ok(_) => Ok(MatrixShape { rows: f0_length as usize, cols: bins_for(fft_size) as usize }),
        },
    }
}

/// Outcome for coding a spectrogram into `dims` dimensions per frame.
pub open spec fn coded_envelope_result<T>(spectrogram: Seq<Vec<T>>, f0_length: int, fs: int, fft_size: int, dims: int) -> Result<MatrixShape, ShapeError> {
    match codec_frames_result(spectrogram, f0_length, fs, fft_size) {
        Err(e) => Err(e),
        Ok(_) => if dims < 1 {
            Err(ShapeError::InvalidDimensions)
        } else {
            match rows_result(spectrogram, bins_for(fft_size)) {
                Err(e) => Err(e),
                Ok(_) => Ok(MatrixShape { rows: f0_length as usize, cols: dims as usize }),
            }
        },
    }
}

/// Outcome for decoding a coded spectrogram back to `fft_size / 2 + 1` bins.
/// The number of dimensions is the length of the coded matrix's first row,
/// so a coded matrix without frames is refused: its width cannot be read.
pub open spec fn decoded_envelope_result<T>(coded: Seq<Vec<T>>, f0_length: int, fs: int, fft_size: int) -> Result<EnvelopeDecoding, ShapeError> {
    match codec_frames_result(coded, f0_length, fs, fft_size) {
        Err(e) => Err(e),
        Ok(_) => if coded.len() == 0 {
            Err(ShapeError::NoFrames)
        } else if coded[0]@.len() == 0 {
            Err(ShapeError::InvalidDimensions)
        } else if coded[0]@.len() > MAX_LEN {
            Err(ShapeError::TooLarge)
        } else {
            match rows_result(coded, coded[0]@.len() as int) {
                Err(e) => Err(e),
                Ok(_) => Ok(EnvelopeDecoding {
                    shape: MatrixShape { rows: f0_length as usize, cols: bins_for(fft_size) as usize },
                    number_of_dimensions: coded[0]@.len() as i32,
                }),
            }
        },
    }
}

fn codec_frames<T>(m: &Vec<Vec<T>>, f0_length: i32, fs: i32, fft_size: i32) -> (r: Result<usize, ShapeError>)
    ensures
        r is Ok <==> codec_frames_result(m@, f0_length as int, fs as int, fft_size as int) is Ok,
        r is Ok ==> r->Ok_0 == bins_for(fft_size as int),
        r is Err ==> Err::<(), ShapeError>(r->Err_0) == codec_frames_result(m@, f0_length as int, fs as int, fft_size as int),
{
    if fs <= 0 {
        return Err(ShapeError::InvalidSampleRate);
    }
    let bins: usize = match bins_of(fft_size) {
        Ok(b) => b,
        Err(e) => return Err(e),
    };
    if f0_length < 0 {
        Err(ShapeError::NegativeFrameCount)
    } else if m.len() != f0_length as usize {
        Err(ShapeError::FrameCount { expected: f0_length as usize, found: m.len() })
    } else {
        Ok(bins)
    }
}

/// Checks an aperiodicity matrix about to be coded and returns the shape of
/// the coded matrix: one row per frame, one column per coded band of `fs`.
pub fn code_aperiodicity_shape<T>(aperiodicity: &Vec<Vec<T>>, f0_length: i32, fs: i32, fft_size: i32) -> (r: Result<MatrixShape, ShapeError>)
    ensures
        r == coded_aperiodicity_result(aperiodicity@, f0_length as int, fs as int, fft_size as int),
{
    let bins: usize = match codec_frames(aperiodicity, f0_length, fs, fft_size) {
        Ok(b) => b,
        Err(e) => return Err(e),
    };
    match check_rows(aperiodicity, bins) {
        Err(e) => Err(e),
        Ok(()) => Ok(MatrixShape { rows: f0_length as usize, cols: get_number_of_aperiodicities(fs) as usize }),
    }
}

/// Checks a coded aperiodicity matrix and returns the shape of the decoded
/// one: one row per frame, `fft_size / 2 + 1` bins per row.
pub fn decode_aperiodicity_shape<T>(coded_aperiodicity: &Vec<Vec<T>>, f0_length: i32, fs: i32, fft_size: i32) -> (r: Result<MatrixShape, ShapeError>)
    ensures
        r == decoded_aperiodicity_result(coded_aperiodicity@, f0_length as int, fs as int, fft_size as int),
{
    let bins: usize = match codec_frames(coded_aperiodicity, f0_length, fs, fft_size) {
        Ok(b) => b,
        Err(e) => return Err(e),
    };
    let bands: usize = get_number_of_aperiodicities(fs) as usize;
    match check_rows(coded_aperiodicity, bands) {
        Err(e) => Err(e),
        Ok(()) => Ok(MatrixShape { rows: f0_length as usize, cols: bins }),
    }
}

/// Checks a spectrogram about to be coded into `number_of_dimensions`
/// dimensions and returns the shape of the coded matrix.
pub fn code_spectral_envelope_shape<T>(spectrogram: &Vec<Vec<T>>, f0_length: i32, fs: i32, fft_size: i32, number_of_dimensions: i32) -> (r: Result<MatrixShape, ShapeError>)
    ensures
        r == coded_envelope_result(spectrogram@, f0_length as int, fs as int, fft_size as int, number_of_dimensions as int),
{
    let bins: usize = match codec_frames(spectrogram, f0_length, fs, fft_size) {
        Ok(b) => b,
        Err(e) => return Err(e),
    };
    if number_of_dimensions < 1 {
        return Err(ShapeError::InvalidDimensions);
    }
    match check_rows(spectrogram, bins) {
        Err(e) => Err(e),
        Ok(()) => Ok(MatrixShape { rows: f0_length as usize, cols: number_of_dimensions as usize }),
    }
}

/// Checks a coded spectrogram and returns the shape of the decoded one
/// together with the number of coded dimensions, read off the coded rows.
pub fn decode_spectral_envelope_shape<T>(coded_spectrogram: &Vec<Vec<T>>, f0_length: i32, fs: i32, fft_size: i32) -> (r: Result<EnvelopeDecoding, ShapeError>)
    ensures
        r == decoded_envelope_result(coded_spectrogram@, f0_length as int, fs as int, fft_size as int),
{
    let bins: usize = match codec_frames(coded_spectrogram, f0_length, fs, fft_size) {
        Ok(b) => b,
        Err(e) => return Err(e),
    };
    if coded_spectrogram.len() == 0 {
        return Err(ShapeError::NoFrames);
    }
    let dims: usize = coded_spectrogram[0].len();
    if dims == 0 {
        return Err(ShapeError::InvalidDimensions);
    }
    if dims > MAX_LEN {
        return Err(ShapeError::TooLarge);
    }
    match check_rows(coded_spectrogram, dims) {
        Err(e) => Err(e),
        Ok(()) => Ok(EnvelopeDecoding {
            shape: MatrixShape { rows: f0_length as usize, cols: bins },
            number_of_dimensions: dims as i32,
        }),
    }
}

/// Output sample count of synthesis: frames times the frame period in whole
/// milliseconds times the sample rate, over a thousand, truncated toward zero.
pub open spec fn synthesis_length(frames: int, frame_period_ms: int, fs: int) -> int {
    let product = frames * frame_period_ms * fs;
    if product >= 0 {
        product / 1000
    } else {
        -((-product) / 1000)
    }
}

/// Outcome for synthesis from a pitch track of `f0_len` frames, a
/// spectrogram and an aperiodicity matrix, one frame every `frame_period_ms`
/// whole milliseconds. The FFT size is re-derived from the spectrogram's bin
/// count, which the aperiodicity must share.
pub open spec fn synthesis_result<T>(f0_len: int, spectrogram: Seq<Vec<T>>, aperiodicity: Seq<Vec<T>>, frame_period_ms: int, fs: int) -> Result<SynthesisShape, ShapeError> {
    if fs <= 0 {
        Err(ShapeError::InvalidSampleRate)
    } else if f0_len > MAX_LEN {
        Err(ShapeError::TooLarge)
    } else if f0_len == 0 {
        Err(ShapeError::NoFrames)
    } else if spectrogram.len() != f0_len {
        Err(ShapeError::FrameCount { expected: f0_len as usize, found: spectrogram.len() as usize })
    } else if aperiodicity.len() != f0_len {
        Err(ShapeError::FrameCount { expected: f0_len as usize, found: aperiodicity.len() as usize })
    } else {
        let bins = spectrogram[0]@.len() as int;
        if bins < 2 {
            Err(ShapeError::InvalidFftSize)
        } else if (bins - 1) * 2 > MAX_LEN {
            Err(ShapeError::TooLarge)
        } else {
            match rows_result(spectrogram, bins) {
                Err(e) => Err(e),
                Ok(_) => match rows_result(aperiodicity, bins) {
                    Err(e) => Err(e),
                    Ok(_) => if synthesis_length(f0_len, frame_period_ms, fs) < 0 {
                        Err(ShapeError::InvalidFramePeriod)
                    } else if synthesis_length(f0_len, frame_period_ms, fs) > MAX_LEN {
                        Err(ShapeError::TooLarge)
                    } else {
                        Ok(SynthesisShape {
                            fft_size: ((bins - 1) * 2) as i32,
                            y_length: synthesis_length(f0_len, frame_period_ms, fs) as usize,
                        })
                    },
                },
            }
        }
    }
}

/// Checks the inputs of synthesis and returns the FFT size to synthesise
/// with and the number of samples to produce.
pub fn synthesis_shape<T>(f0: &Vec<T>, spectrogram: &Vec<Vec<T>>, aperiodicity: &Vec<Vec<T>>, frame_period_ms: i32, fs: i32) -> (r: Result<SynthesisShape, ShapeError>)
    ensures
        r == synthesis_result(f0@.len() as int, spectrogram@, aperiodicity@, frame_period_ms as int, fs as int),
{
    let frames: usize = f0.len();
    if fs <= 0 {
        return Err(ShapeError::InvalidSampleRate);
    }
    if frames > MAX_LEN {
        return Err(ShapeError::TooLarge);
    }
    if frames == 0 {
        return Err(ShapeError::NoFrames);
    }
    if spectrogram.len() != frames {
        return Err(ShapeError::FrameCount { expected: frames, found: spectrogram.len() });
    }
    if aperiodicity.len() != frames {
        return Err(ShapeError::FrameCount { expected: frames, found: aperiodicity.len() });
    }
    let bins: usize = spectrogram[0].len();
    if bins < 2 {
        return Err(ShapeError::InvalidFftSize);
    }
    if bins - 1 > MAX_LEN / 2 {
        return Err(ShapeError::TooLarge);
    }
    let fft_size: i32 = ((bins - 1) * 2) as i32;
    match check_rows(spectrogram, bins) {
        Err(e) => return Err(e),
        Ok(()) => {},
    }
    match check_rows(aperiodicity, bins) {
        Err(e) => return Err(e),
        Ok(()) => {},
    }
    // The magnitude of frames * period * fs, whose sign is the period's.
    let period: u128 = if frame_period_ms >= 0 {
        frame_period_ms as u128
    } else {
        (-(frame_period_ms as i64)) as u128
    };
    let ghost p: int = if frame_period_ms >= 0 { frame_period_ms as int } else { -(frame_period_ms as int) };
    assert(frames * p * fs <= 0x8000_0000 * 0x8000_0000 * 0x8000_0000) by (nonlinear_arith)
        requires
            0 < frames <= 0x8000_0000,
            0 <= p <= 0x8000_0000,
            0 < fs <= 0x8000_0000;
    assert(frames * p <= 0x8000_0000 * 0x8000_0000) by (nonlinear_arith)
        requires
            0 < frames <= 0x8000_0000,
            0 <= p <= 0x8000_0000;
    assert(frames * frame_period_ms * fs == if frame_period_ms >= 0 { frames * p * fs } else { -(frames * p * fs) })
        by (nonlinear_arith)
        requires
            p == if frame_period_ms >= 0 { frame_period_ms as int } else { -(frame_period_ms as int) };
    let magnitude: u128 = (frames as u128) * period * (fs as u128);
    let y: u128 = magnitude / 1000;
    if frame_period_ms < 0 && y > 0 {
        return Err(ShapeError::InvalidFramePeriod);
    }
    if y > MAX_LEN as u128 {
        return Err(ShapeError::TooLarge);
    }
    // A negative period whose product is under a thousand truncates to zero.
    let y_length: usize = if frame_period_ms < 0 { 0 } else { y as usize };
    Ok(SynthesisShape { fft_size, y_length })
}

} // verus!
