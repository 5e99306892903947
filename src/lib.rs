//! Relative camera rotation between two frames from tracked sparse features.
//!
//! An item holds one frame's detected features and its image. Tracking one item
//! against another yields index-aligned correspondences, filtered to those that the
//! tracker found and that lie inside the frame at both ends. A pose fitted to those
//! correspondences is accepted only with enough correspondences and inliers, and
//! only from a 3 by 3 matrix of doubles, whose cells are then read row by row.
use vstd::prelude::*;

pub mod geometry;
pub mod item;
pub mod pose;
pub mod raster;
pub mod tracking;

use crate::pose::EstimateError;

verus! {

/// Prepares the estimator backend; it needs no setup, so this always succeeds.
pub fn init() -> (r: Result<(), EstimateError>)
    ensures
        r is Ok,
{
    Ok(())
}

} // verus!
