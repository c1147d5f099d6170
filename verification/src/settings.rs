//! The limits and tolerances of a navigator.

use vstd::prelude::*;
use crate::vector::Scalar;

verus! {

/// The bit pattern of `0.3`.
pub const DEFAULT_STEER_TARGET_RADIUS: u32 = 0x3e99_999a;
/// The bit pattern of `1000.0`.
pub const DEFAULT_STEER_TARGET_HEIGHT: u32 = 0x447a_0000;
/// The bit pattern of `2.0`.
pub const DEFAULT_SMOOTH_STEP_SIZE: u32 = 0x4000_0000;

/// What bounds a path request. The three tolerances are floats, carried as
/// bit patterns.
#[derive(Clone, Copy, Debug, PartialEq, Eq, Structural)]
pub struct NavigatorSettings {
    /// The capacity of the corridor.
    pub max_path: usize,
    /// The most waypoints a smoothed path may have.
    pub max_smooth_path: usize,
    /// The most polygons one surface-constrained move may report.
    pub max_move_visits: usize,
    /// The most straight-path vertices looked at for a steer target.
    pub max_steer_points: i32,
    /// Horizontal distance below which a vertex counts as reached.
    pub steer_target_radius: Scalar,
    /// Vertical distance below which a vertex counts as reached.
    pub steer_target_height: Scalar,
    /// The length of one smoothing step.
    pub smooth_step_size: Scalar,
}

impl NavigatorSettings {
    /// The settings a navigator has unless told otherwise.
    pub open spec fn default_spec() -> NavigatorSettings {
        NavigatorSettings {
            max_path: 64,
            max_smooth_path: 128,
            max_move_visits: 16,
            max_steer_points: 3,
            steer_target_radius: Scalar { bits: DEFAULT_STEER_TARGET_RADIUS },
            steer_target_height: Scalar { bits: DEFAULT_STEER_TARGET_HEIGHT },
            smooth_step_size: Scalar { bits: DEFAULT_SMOOTH_STEP_SIZE },
        }
    }
}

impl Default for NavigatorSettings {
    fn default() -> (settings: NavigatorSettings)
        ensures
            settings == NavigatorSettings::default_spec(),
    {
        NavigatorSettings {
            max_path: 64,
            max_smooth_path: 128,
            max_move_visits: 16,
            max_steer_points: 3,
            steer_target_radius: Scalar { bits: DEFAULT_STEER_TARGET_RADIUS },
            steer_target_height: Scalar { bits: DEFAULT_STEER_TARGET_HEIGHT },
            smooth_step_size: Scalar { bits: DEFAULT_SMOOTH_STEP_SIZE },
        }
    }
}

} // verus!
