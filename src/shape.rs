//! Rectangular matrices of frames by bins, and the errors raised when the
//! buffers handed to a stage do not have the shape the backend relies on.
use vstd::prelude::*;

verus! {

/// Rows (frames) by columns (bins or coded dimensions) of a matrix.
#[derive(Clone, Copy, Debug, PartialEq, Eq, Structural)]
pub struct MatrixShape {
    pub rows: usize,
    pub cols: usize,
}

/// Why a stage refused its buffers before any backend call was made.
#[derive(Clone, Copy, Debug, PartialEq, Eq, Structural)]
pub enum ShapeError {
    /// The sample rate is not positive.
    InvalidSampleRate,
    /// The FFT size is not a positive even number.
    InvalidFftSize,
    /// The frame period is negative enough to ask for a negative sample count.
    InvalidFramePeriod,
    /// The number of coded dimensions is not positive.
    InvalidDimensions,
    /// A stage that needs at least one frame was given none.
    NoFrames,
    /// A frame count passed alongside a matrix is negative.
    NegativeFrameCount,
    /// A length does not fit the backend's `int`.
    TooLarge,
    /// A buffer holds `found` frames where `expected` were due.
    FrameCount { expected: usize, found: usize },
    /// Row `row` is the first one whose length `found` is not `expected`.
    RowLength { row: usize, expected: usize, found: usize },
}

/// Largest length the backend's `int` parameters can carry.
pub const MAX_LEN: usize = 0x7fff_ffff;

/// Every row of `m` holds exactly `cols` entries.
pub open spec fn rows_have_len<T>(m: Seq<Vec<T>>, cols: int) -> bool {
    forall|i: int| 0 <= i < m.len() ==> #[trigger] m[i]@.len() == cols
}

/// `m` has `shape.rows` rows of `shape.cols` entries each.
pub open spec fn realizes<T>(m: Seq<Vec<T>>, shape: MatrixShape) -> bool {
    m.len() == shape.rows && rows_have_len(m, shape.cols as int)
}

/// `row` is the first row of `m` whose length is not `cols`.
pub open spec fn is_first_bad_row<T>(m: Seq<Vec<T>>, cols: int, row: int) -> bool {
    &&& 0 <= row < m.len()
    &&& m[row]@.len() != cols
    &&& forall|j: int| 0 <= j < row ==> #[trigger] m[j]@.len() == cols
}

/// The error naming the first row of `m` whose length is not `cols`.
pub open spec fn row_error<T>(m: Seq<Vec<T>>, cols: int) -> ShapeError {
    let row = choose|row: int| is_first_bad_row(m, cols, row);
    ShapeError::RowLength { row: row as usize, expected: cols as usize, found: m[row]@.len() as usize }
}

/// Outcome of checking that every row of `m` holds `cols` entries.
pub open spec fn rows_result<T>(m: Seq<Vec<T>>, cols: int) -> Result<(), ShapeError> {
    if rows_have_len(m, cols) {
        Ok(())
    } else {
        Err(row_error(m, cols))
    }
}

/// Shape of `m`: its row count and the common length of its rows. An empty
/// matrix has no rows and no columns; a jagged one is refused.
pub open spec fn shape_of<T>(m: Seq<Vec<T>>) -> Result<MatrixShape, ShapeError> {
    if m.len() == 0 {
        Ok(MatrixShape { rows: 0, cols: 0 })
    } else if rows_have_len(m, m[0]@.len() as int) {
        Ok(MatrixShape { rows: m.len() as usize, cols: m[0]@.len() as usize })
    } else {
        Err(row_error(m, m[0]@.len() as int))
    }
}

/// At most one row is the first bad one.
proof fn lemma_first_bad_row_unique<T>(m: Seq<Vec<T>>, cols: int, a: int, b: int)
    requires
        is_first_bad_row(m, cols, a),
        is_first_bad_row(m, cols, b),
    ensures
        a == b,
{
    if a < b {
        assert(m[a]@.len() == cols);
    } else if b < a {
        assert(m[b]@.len() == cols);
    }
}

/// Checks that every row of `m` holds `cols` entries, naming the first that
/// does not.
pub fn check_rows<T>(m: &Vec<Vec<T>>, cols: usize) -> (r: Result<(), ShapeError>)
    ensures
        r == rows_result(m@, cols as int),
{
    let mut i: usize = 0;
    while i < m.len()
        invariant
            0 <= i <= m@.len(),
            forall|j: int| 0 <= j < i ==> #[trigger] m@[j]@.len() == cols,
        decreases m@.len() - i,
    {
        let found: usize = m[i].len();
        if found != cols {
            proof {
                assert(is_first_bad_row(m@, cols as int, i as int));
                let c = choose|row: int| is_first_bad_row(m@, cols as int, row);
                lemma_first_bad_row_unique(m@, cols as int, c, i as int);
            }
            return Err(ShapeError::RowLength { row: i, expected: cols, found });
        }
        i = i + 1;
    }
    Ok(())
}

/// Shape of a matrix handed in by a caller; refuses a jagged one.
pub fn matrix_shape<T>(m: &Vec<Vec<T>>) -> (r: Result<MatrixShape, ShapeError>)
    ensures
        r == shape_of(m@),
{
    if m.len() == 0 {
        return Ok(MatrixShape { rows: 0, cols: 0 });
    }
    let cols: usize = m[0].len();
    match check_rows(m, cols) {
        Ok(()) => Ok(MatrixShape { rows: m.len(), cols }),
        Err(e) => Err(e),
    }
}

/// A matrix of the given shape with every entry `fill`: the buffer a stage
/// hands to the backend to be written in place.
pub fn new_matrix<T: Copy>(shape: MatrixShape, fill: T) -> (m: Vec<Vec<T>>)
    ensures
        realizes(m@, shape),
        forall|i: int, j: int| 0 <= i < m@.len() && 0 <= j < shape.cols ==> #[trigger] m@[i]@[j] == fill,
        shape.rows > 0 ==> shape_of(m@) == Ok::<MatrixShape, ShapeError>(shape),
{
    let mut m: Vec<Vec<T>> = Vec::with_capacity(shape.rows);
    let mut i: usize = 0;
    while i < shape.rows
        invariant
            0 <= i <= shape.rows,
            m@.len() == i,
            rows_have_len(m@, shape.cols as int),
            forall|k: int, j: int| 0 <= k < m@.len() && 0 <= j < shape.cols ==> #[trigger] m@[k]@[j] == fill,
        decreases shape.rows - i,
    {
        let mut row: Vec<T> = Vec::with_capacity(shape.cols);
        let mut j: usize = 0;
        while j < shape.cols
            invariant
                0 <= j <= shape.cols,
                row@.len() == j,
                forall|k: int| 0 <= k < j ==> #[trigger] row@[k] == fill,
            decreases shape.cols - j,
        {
            row.push(fill);
            j = j + 1;
        }
        m.push(row);
        i = i + 1;
    }
    m
}

} // verus!
