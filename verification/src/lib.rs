//! Path planning over a streamed navigation mesh.
//!
//! The geometric query engine is a collaborator that lives outside this
//! crate. What is verified here is the layer above it: the status words it
//! answers with, the resident-tile bookkeeping, the corridor that is kept in
//! step with surface-constrained movement, and the string-pulling smoother,
//! each written as a function from state and engine answer to next state and
//! next request.
//!
//! Coordinates are single-precision floats that this crate never computes
//! with: they are carried as bit patterns ([`Scalar`]) and handed back to the
//! caller, who owns the arithmetic.

pub mod status;
pub mod error;
pub mod vector;
pub mod corridor;
pub mod tile;
pub mod settings;
pub mod smooth;
pub mod navigator;
pub mod filter;
pub mod params;

pub use status::{DtStatus, DtStraightPathFlags};
pub use error::{DivertError, DivertResult};
pub use vector::{Scalar, Vector};
pub use corridor::{find_common, PathCorridor, PolyRef};
pub use filter::QueryFilter;
pub use params::{read_nav_mesh_params_from, NavMeshParams};
pub use navigator::{NavAction, NavPhase, Navigator, PathRequest};
pub use settings::NavigatorSettings;
pub use smooth::{
    resolve_height, select_steer_target, PathSmoother, SmoothAction, SmoothPhase, SteerCandidate,
    SteerTarget,
};
pub use tile::{TileId, TileLoadOutcome, TileRef, TileRequest, TileStore};
