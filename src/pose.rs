use vstd::prelude::*;

verus! {

/// Fewest correspondences for which an essential matrix is determined.
pub const MIN_CORRESPONDENCES: usize = 8;

/// Fewest inliers that must support a recovered pose for it to be accepted.
pub const MIN_INLIERS: i32 = 20;

/// Type code of a single-channel matrix of 64-bit floating-point elements.
pub const TYPE_F64_C1: i32 = 6;

/// Why no rotation came out of a pair of frames.
#[derive(Clone, Copy, Debug, PartialEq, Eq, Structural)]
pub enum EstimateError {
    /// The tracker failed, or the items cannot be tracked against each other.
    TrackingFailure,
    /// Too few correspondences survived filtering for a pose to be determined.
    TooFewCorrespondences,
    /// Robust fitting of the essential matrix or its decomposition failed, or it
    /// counted more inliers than there are correspondences.
    FitFailure,
    /// The recovered pose is supported by too few inliers.
    InsufficientInliers,
    /// The recovered rotation matrix is not a 3 by 3 matrix of doubles.
    InvalidMatrixType,
}

/// Shape and element type of a dense matrix, as the vision library describes it.
#[derive(Clone, Copy, Debug, PartialEq, Eq, Structural)]
pub struct MatrixHeader {
    pub rows: i32,
    pub cols: i32,
    pub typ: i32,
}

/// What robust fitting and pose decomposition report: the number of inliers that
/// support the pose, and the header of the recovered rotation matrix.
#[derive(Clone, Copy, Debug, PartialEq, Eq, Structural)]
pub struct PoseFit {
    pub inliers: i32,
    pub rotation: MatrixHeader,
}

/// A matrix that can be read as a rotation: 3 by 3, single-channel doubles.
pub open spec fn is_rotation_matrix(m: MatrixHeader) -> bool {
    m.rows == 3 && m.cols == 3 && m.typ == TYPE_F64_C1
}

/// The nine cells of a 3 by 3 matrix, row by row.
pub open spec fn row_major_cells() -> Seq<(i32, i32)> {
    Seq::new(9, |k: int| ((k / 3) as i32, (k % 3) as i32))
}

/// Where to read a rotation from a matrix with header `m`: its nine cells in
/// row-major order, or `InvalidMatrixType` for any other shape or element type.
pub fn rotation_cells(m: &MatrixHeader) -> (r: Result<Vec<(i32, i32)>, EstimateError>)
    ensures
        is_rotation_matrix(*m) ==> r is Ok && r->Ok_0@ == row_major_cells(),
        !is_rotation_matrix(*m) ==> r == Err::<Vec<(i32, i32)>, EstimateError>(
            EstimateError::InvalidMatrixType,
        ),
{
    if m.typ != TYPE_F64_C1 || m.rows != 3 || m.cols != 3 {
        return Err(EstimateError::InvalidMatrixType);
    }
    let mut cells: Vec<(i32, i32)> = Vec::new();
    let mut row: i32 = 0;
    while row < 3
        invariant
            0 <= row <= 3,
            cells@ == row_major_cells().take(row * 3),
        decreases 3 - row,
    {
        let mut col: i32 = 0;
        while col < 3
            invariant
                0 <= row < 3,
                0 <= col <= 3,
                cells@ == row_major_cells().take(row * 3 + col),
            decreases 3 - col,
        {
            cells.push((row, col));
            assert(cells@ =~= row_major_cells().take(row * 3 + col + 1));
            col = col + 1;
        }
        row = row + 1;
    }
    assert(cells@ =~= row_major_cells());
    Ok(cells)
}

/// The outcome of rotation recovery over `n` correspondences.
pub open spec fn rotation_outcome(n: int, fit: Option<PoseFit>) -> Result<Seq<(i32, i32)>, EstimateError> {
    if n < MIN_CORRESPONDENCES {
        Err(EstimateError::TooFewCorrespondences)
    } else {
        match fit {
            None => Err(EstimateError::FitFailure),
            Some(f) => if f.inliers < MIN_INLIERS {
                Err(EstimateError::InsufficientInliers)
            } else if f.inliers > n {
                Err(EstimateError::FitFailure)
            } else if !is_rotation_matrix(f.rotation) {
                Err(EstimateError::InvalidMatrixType)
            } else {
                Ok(row_major_cells())
            },
        }
    }
}

/// Decides on a fitted pose over `n` correspondences: rejected below
/// `MIN_CORRESPONDENCES` correspondences, where fitting failed or counted more
/// inliers than correspondences, below `MIN_INLIERS` inliers, or for a rotation
/// matrix of the wrong kind; otherwise the cells from
/// which to read the rotation.
pub fn recover_rotation(n: usize, fit: Option<PoseFit>) -> (r: Result<Vec<(i32, i32)>, EstimateError>)
    ensures
        match r {
            Ok(c) => rotation_outcome(n as int, fit) == Ok::<Seq<(i32, i32)>, EstimateError>(c@),
            Err(e) => rotation_outcome(n as int, fit) == Err::<Seq<(i32, i32)>, EstimateError>(e),
        },
{
    if n < MIN_CORRESPONDENCES {
        return Err(EstimateError::TooFewCorrespondences);
    }
    match fit {
        None => Err(EstimateError::FitFailure),
        Some(f) => {
            if f.inliers < MIN_INLIERS {
                Err(EstimateError::InsufficientInliers)
            } else if f.inliers as usize > n {
                Err(EstimateError::FitFailure)
            } else {
                rotation_cells(&f.rotation)
            }
        },
    }
}

/// A matrix that is not 3 by 3, or not of doubles, is refused as `InvalidMatrixType`
/// whenever the fit is otherwise accepted, and never read.
pub proof fn lemma_wrong_matrix_refused(n: int, fit: PoseFit)
    requires
        n >= MIN_CORRESPONDENCES,
        MIN_INLIERS <= fit.inliers <= n,
        !is_rotation_matrix(fit.rotation),
    ensures
        rotation_outcome(n, Some(fit)) == Err::<Seq<(i32, i32)>, EstimateError>(
            EstimateError::InvalidMatrixType,
        ),
{
}

} // verus!
