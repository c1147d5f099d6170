//! The one error type of the crate.

use vstd::prelude::*;
use crate::status::DtStatus;

verus! {

/// Why a request could not be served.
#[derive(Clone, Copy, Debug, PartialEq, Eq, Structural)]
pub enum DivertError {
    /// An engine primitive without a variant of its own reported failure.
    Failure(DtStatus),
    /// The engine could not allocate a handle.
    NullPtr(),
    /// The polygon-height query reported failure.
    GetPolyHeightFailure(DtStatus),
    /// The nearest-polygon query reported failure.
    FindNearestPolyFailure(DtStatus),
    /// The closest-point-on-polygon query reported failure.
    ClosestPointOnPolyFailure(DtStatus),
    /// The closest-point-on-boundary query reported failure.
    ClosestPointOnPolyBoundaryFailure(DtStatus),
    /// The polygon-graph path query reported failure.
    FindPathFailure(DtStatus),
    /// The straight-path query reported failure.
    FindStraightPathFailure(DtStatus),
    /// The surface-constrained move reported failure.
    MoveAlongSurfaceFailure(DtStatus),
    /// The tile loader produced no bytes.
    TileLoadFailure,
    /// The engine refused to register a tile.
    TileRejected(DtStatus),
    /// No polygon lies within the search extent of an endpoint.
    NoNearbyPolygon,
    /// The corridor and the visited trace share no polygon.
    CorridorMergeInvariantViolation,
}

pub type DivertResult<T> = Result<T, DivertError>;

/// The engine primitives whose failure has an error variant of its own.
#[derive(Clone, Copy, Debug, PartialEq, Eq, Structural)]
pub enum Primitive {
    GetPolyHeight,
    FindNearestPoly,
    ClosestPointOnPoly,
    ClosestPointOnPolyBoundary,
    FindPath,
    FindStraightPath,
    MoveAlongSurface,
    AddTile,
    Other,
}

impl Primitive {
    /// The error that a failed `status` of this primitive becomes.
    pub open spec fn failure(self, status: DtStatus) -> DivertError {
        match self {
            Primitive::GetPolyHeight => DivertError::GetPolyHeightFailure(status),
            Primitive::FindNearestPoly => DivertError::FindNearestPolyFailure(status),
            Primitive::ClosestPointOnPoly => DivertError::ClosestPointOnPolyFailure(status),
            Primitive::ClosestPointOnPolyBoundary => DivertError::ClosestPointOnPolyBoundaryFailure(
                status,
            ),
            Primitive::FindPath => DivertError::FindPathFailure(status),
            Primitive::FindStraightPath => DivertError::FindStraightPathFailure(status),
            Primitive::MoveAlongSurface => DivertError::MoveAlongSurfaceFailure(status),
            Primitive::AddTile => DivertError::TileRejected(status),
            Primitive::Other => DivertError::Failure(status),
        }
    }

    /// Turns the status that a primitive answered with into a result: an
    /// error exactly when the failure bit is set, and then the variant of
    /// that primitive with the status as it came. A partial result is no
    /// failure.
    pub fn check(self, status: DtStatus) -> (outcome: DivertResult<()>)
        ensures
            outcome == if status.has(crate::status::DT_FAILURE) {
                Err::<(), DivertError>(self.failure(status))
            } else {
                Ok::<(), DivertError>(())
            },
    {
        if status.is_failed() {
            Err(
                match self {
                    Primitive::GetPolyHeight => DivertError::GetPolyHeightFailure(status),
                    Primitive::FindNearestPoly => DivertError::FindNearestPolyFailure(status),
                    Primitive::ClosestPointOnPoly => DivertError::ClosestPointOnPolyFailure(status),
                    Primitive::ClosestPointOnPolyBoundary => {
                        DivertError::ClosestPointOnPolyBoundaryFailure(status)
                    },
                    Primitive::FindPath => DivertError::FindPathFailure(status),
                    Primitive::FindStraightPath => DivertError::FindStraightPathFailure(status),
                    Primitive::MoveAlongSurface => DivertError::MoveAlongSurfaceFailure(status),
                    Primitive::AddTile => DivertError::TileRejected(status),
                    Primitive::Other => DivertError::Failure(status),
                },
            )
        } else {
            Ok(())
        }
    }
}

} // verus!
