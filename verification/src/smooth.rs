//! The string-pulling smoother, as a machine that the caller drives.
//!
//! One round of smoothing asks the engine three things in turn: the straight
//! path over the corridor, a surface-constrained move towards the steer
//! target, and the height of the polygon where the move ended. The smoother
//! decides between the answers; the caller performs the requests and does the
//! float arithmetic (the distances of each straight-path vertex, the point a
//! step away, the lift of the waypoint).

use vstd::prelude::*;
use crate::corridor::{has_common, merge_spec, trace_fits, PathCorridor, PolyRef};
use crate::error::{DivertError, DivertResult};
use crate::settings::NavigatorSettings;
use crate::status::{DtStatus, DtStraightPathFlags, DT_FAILURE};
use crate::vector::{Scalar, Vector};

verus! {

/// The bit pattern of `0.5`: how far a waypoint is lifted above the surface.
pub const WAYPOINT_LIFT: u32 = 0x3f00_0000;

/// One vertex of a straight path, with the caller's two measurements of it
/// against the current position.
#[derive(Clone, Copy, Debug, PartialEq, Eq, Structural)]
pub struct SteerCandidate {
    pub position: Vector,
    pub flags: DtStraightPathFlags,
    pub poly: PolyRef,
    /// The squared distance on the horizontal plane is below the squared
    /// steer radius.
    pub within_radius: bool,
    /// The vertical distance is below the steer height.
    pub within_height: bool,
    /// The distance on the horizontal plane is below the step size.
    pub within_step: bool,
}

/// The vertex to steer towards.
#[derive(Clone, Copy, Debug, PartialEq, Eq, Structural)]
pub struct SteerTarget {
    pub position: Vector,
    pub flags: DtStraightPathFlags,
    pub poly: PolyRef,
    /// The target is nearer than one step.
    pub within_step: bool,
}

impl SteerCandidate {
    /// The vertex is in range: near enough both on the plane and in height.
    pub open spec fn in_range(self) -> bool {
        self.within_radius && self.within_height
    }

    /// The vertex is worth steering towards: it starts an off-mesh
    /// connection or is not in range.
    pub open spec fn steerable(self) -> bool {
        self.flags.leaves_mesh() || !self.in_range()
    }

    /// The vertex as a steer target for an agent at `current`: brought to
    /// the agent's height.
    pub open spec fn target_from(self, current: Vector) -> SteerTarget {
        SteerTarget {
            position: self.position.level_with(current),
            flags: self.flags,
            poly: self.poly,
            within_step: self.within_step,
        }
    }
}

impl SteerTarget {
    /// The step towards this target ends on it: the target ends the path or
    /// starts an off-mesh connection, and it is nearer than one step. Every
    /// other step has the length of the step size.
    pub open spec fn whole_step(self) -> bool {
        (self.flags.ends_path() || self.flags.leaves_mesh()) && self.within_step
    }
}

/// `k` is the first steerable vertex.
pub open spec fn is_first_steerable(candidates: Seq<SteerCandidate>, k: int) -> bool {
    &&& 0 <= k < candidates.len()
    &&& candidates[k].steerable()
    &&& forall|m: int| 0 <= m < k ==> !(#[trigger] candidates[m]).steerable()
}

/// The steer target among the vertices: the first steerable one, if any.
pub open spec fn select_spec(candidates: Seq<SteerCandidate>, current: Vector) -> Option<
    SteerTarget,
> {
    if exists|k: int| is_first_steerable(candidates, k) {
        let k = choose|k: int| is_first_steerable(candidates, k);
        Some(candidates[k].target_from(current))
    } else {
        None
    }
}

/// Picks the steer target: the first vertex that starts an off-mesh
/// connection or is out of range, brought to the height of `current`; none
/// when every vertex is in range and on the mesh.
pub fn select_steer_target(candidates: &[SteerCandidate], current: &Vector) -> (target: Option<
    SteerTarget,
>)
    ensures
        target == select_spec(candidates@, *current),
        target is None <==> forall|k: int|
            0 <= k < candidates@.len() ==> !(#[trigger] candidates@[k]).steerable(),
{
    let mut k: usize = 0;
    while k < candidates.len()
        invariant
            k <= candidates@.len(),
            forall|m: int| 0 <= m < k ==> !(#[trigger] candidates@[m]).steerable(),
        decreases candidates@.len() - k,
    {
        let candidate = candidates[k];
        if candidate.flags.is_offmesh_connection() || !(candidate.within_radius
            && candidate.within_height) {
            assert(is_first_steerable(candidates@, k as int));
            let ghost chosen = choose|c: int| is_first_steerable(candidates@, c);
            assert(chosen == k) by {
                if chosen < k {
                    assert(!candidates@[chosen].steerable());
                }
                if k < chosen {
                    assert(!candidates@[k as int].steerable());
                }
            }
            return Some(
                SteerTarget {
                    position: Vector {
                        y: candidate.position.y,
                        z: current.z,
                        x: candidate.position.x,
                    },
                    flags: candidate.flags,
                    poly: candidate.poly,
                    within_step: candidate.within_step,
                },
            );
        }
        k = k + 1;
    }
    assert forall|c: int| !is_first_steerable(candidates@, c) by {
        if 0 <= c < candidates@.len() {
            assert(!candidates@[c].steerable());
        }
    }
    None
}

/// The height to use for a waypoint: the engine's answer, or zero when the
/// height query failed.
pub open spec fn resolve_height_spec(status: DtStatus, height: Scalar) -> Scalar {
    if status.has(DT_FAILURE) {
        Scalar::zero_spec()
    } else {
        height
    }
}

/// The height to use for a waypoint. A failed height query does not end the
/// path: the waypoint is placed at height zero.
pub fn resolve_height(status: DtStatus, height: Scalar) -> (resolved: Scalar)
    ensures
        resolved == resolve_height_spec(status, height),
{
    if status.is_failed() {
        Scalar::zero()
    } else {
        height
    }
}

/// Where a smoother stands within a round.
#[derive(Clone, Copy, Debug, PartialEq, Eq, Structural)]
pub enum SmoothPhase {
    /// Waiting for the straight path over the corridor.
    Steering,
    /// Waiting for the move towards the steer target.
    Moving { toward: Vector, whole_step: bool },
    /// Waiting for the height at the end of the move.
    Lifting { moved: Vector },
    /// Waiting for the lifted height of the waypoint.
    Emitting { moved: Vector, height: Scalar },
    /// Smoothing is over.
    Finished,
}

/// What the caller has to do next.
#[derive(Clone, Copy, Debug, PartialEq, Eq, Structural)]
pub enum SmoothAction {
    /// Project the straight path from `start` to `end` over the corridor,
    /// with at most `max_points` vertices, and measure each vertex against
    /// `start` with `radius`, `height` and `step_size`.
    FindStraightPath {
        start: Vector,
        end: Vector,
        max_points: i32,
        radius: Scalar,
        height: Scalar,
        step_size: Scalar,
    },
    /// Move along the surface from `start` on `start_ref` in the direction
    /// of `toward`, reporting at most `max_visits` polygons. The step ends
    /// on `toward` if `whole_step` holds; else it has the length `step_size`.
    MoveAlongSurface {
        start_ref: PolyRef,
        start: Vector,
        toward: Vector,
        whole_step: bool,
        step_size: Scalar,
        max_visits: usize,
    },
    /// Query the height of `poly` at `position`.
    GetPolyHeight { poly: PolyRef, position: Vector },
    /// Add `offset` to `height`.
    Lift { height: Scalar, offset: Scalar },
    /// Nothing: the waypoints are final.
    Done,
}

/// The state of a smoother, as contracts see it.
pub struct SmootherView {
    pub settings: NavigatorSettings,
    pub corridor: Seq<PolyRef>,
    pub capacity: int,
    pub waypoints: Seq<Vector>,
    pub position: Vector,
    pub target: Vector,
    pub phase: SmoothPhase,
}

/// An answer of the engine, or of the caller's arithmetic.
pub enum SmoothEvent {
    StraightPath { status: DtStatus, candidates: Seq<SteerCandidate> },
    Moved { status: DtStatus, position: Vector, visited: Seq<PolyRef> },
    Height { status: DtStatus, height: Scalar },
    Lifted { lifted: Scalar },
}

impl SmootherView {
    /// Another round can begin: the corridor is not empty and the path has
    /// room for a waypoint.
    pub open spec fn active(self) -> bool {
        self.corridor.len() > 0 && self.waypoints.len() < self.settings.max_smooth_path
    }

    /// The phase at the start of a round.
    pub open spec fn resting_phase(self) -> SmoothPhase {
        if self.active() {
            SmoothPhase::Steering
        } else {
            SmoothPhase::Finished
        }
    }

    /// What holds of every state that a smoother reaches.
    pub open spec fn inv(self) -> bool {
        &&& self.corridor.len() <= self.capacity
        &&& self.waypoints.len() <= self.settings.max_smooth_path
        &&& !(self.phase is Finished) ==> self.active()
    }

    /// The request that the state waits on.
    pub open spec fn pending(self) -> SmoothAction {
        match self.phase {
            SmoothPhase::Steering => SmoothAction::FindStraightPath {
                start: self.position,
                end: self.target,
                max_points: self.settings.max_steer_points,
                radius: self.settings.steer_target_radius,
                height: self.settings.steer_target_height,
                step_size: self.settings.smooth_step_size,
            },
            SmoothPhase::Moving { toward, whole_step } => SmoothAction::MoveAlongSurface {
                start_ref: self.corridor[0],
                start: self.position,
                toward,
                whole_step,
                step_size: self.settings.smooth_step_size,
                max_visits: self.settings.max_move_visits,
            },
            SmoothPhase::Lifting { moved } => SmoothAction::GetPolyHeight {
                poly: self.corridor[0],
                position: moved,
            },
            SmoothPhase::Emitting { moved, height } => SmoothAction::Lift {
                height,
                offset: Scalar { bits: WAYPOINT_LIFT },
            },
            SmoothPhase::Finished => SmoothAction::Done,
        }
    }

    /// The state with another phase.
    pub open spec fn in_phase(self, phase: SmoothPhase) -> SmootherView {
        SmootherView { phase, ..self }
    }

    /// The state at the start of smoothing.
    pub open spec fn initial(
        settings: NavigatorSettings,
        corridor: Seq<PolyRef>,
        capacity: int,
        start: Vector,
        target: Vector,
    ) -> SmootherView {
        let first = SmootherView {
            settings,
            corridor,
            capacity,
            waypoints: if settings.max_smooth_path > 0 {
                seq![start]
            } else {
                Seq::<Vector>::empty()
            },
            position: start,
            target,
            phase: SmoothPhase::Finished,
        };
        first.in_phase(first.resting_phase())
    }

    /// The state after the straight path came back.
    pub open spec fn after_straight_path(
        self,
        status: DtStatus,
        candidates: Seq<SteerCandidate>,
    ) -> SmootherView {
        if status.has(DT_FAILURE) {
            self.in_phase(SmoothPhase::Finished)
        } else {
            match select_spec(candidates, self.position) {
                Some(target) => self.in_phase(
                    SmoothPhase::Moving {
                        toward: target.position,
                        whole_step: target.whole_step(),
                    },
                ),
                None => self.in_phase(SmoothPhase::Finished),
            }
        }
    }

    /// The error, if any, with which the straight path ends smoothing.
    pub open spec fn straight_path_error(status: DtStatus) -> Option<DivertError> {
        if status.has(DT_FAILURE) {
            Some(DivertError::FindStraightPathFailure(status))
        } else {
            None
        }
    }

    /// The state after the move came back.
    pub open spec fn after_moved(
        self,
        status: DtStatus,
        position: Vector,
        visited: Seq<PolyRef>,
    ) -> SmootherView {
        if status.has(DT_FAILURE) || !has_common(self.corridor, visited) {
            self.in_phase(SmoothPhase::Finished)
        } else {
            SmootherView {
                corridor: merge_spec(self.corridor, visited, self.capacity),
                phase: SmoothPhase::Lifting { moved: position },
                ..self
            }
        }
    }

    /// The error, if any, with which the move ends smoothing.
    pub open spec fn moved_error(self, status: DtStatus, visited: Seq<PolyRef>) -> Option<
        DivertError,
    > {
        if status.has(DT_FAILURE) {
            Some(DivertError::MoveAlongSurfaceFailure(status))
        } else if !has_common(self.corridor, visited) {
            Some(DivertError::CorridorMergeInvariantViolation)
        } else {
            None
        }
    }

    /// The state after the height came back.
    pub open spec fn after_height(self, moved: Vector, status: DtStatus, height: Scalar) -> SmootherView {
        self.in_phase(
            SmoothPhase::Emitting { moved, height: resolve_height_spec(status, height) },
        )
    }

    /// The state after the lifted height came back: the waypoint is
    /// emitted, the agent stands on it, and the next round begins if it can.
    pub open spec fn after_lifted(self, moved: Vector, lifted: Scalar) -> SmootherView {
        let waypoint = Vector::at(moved.x, moved.y, lifted);
        let emitted = SmootherView {
            waypoints: self.waypoints.push(waypoint),
            position: waypoint,
            ..self
        };
        emitted.in_phase(emitted.resting_phase())
    }

    /// The state after an event. An event that the phase does not wait for,
    /// or a trace that does not fit the corridor, changes nothing.
    pub open spec fn after(self, event: SmoothEvent) -> SmootherView {
        match (self.phase, event) {
            (
                SmoothPhase::Steering,
                SmoothEvent::StraightPath { status, candidates },
            ) => self.after_straight_path(status, candidates),
            (SmoothPhase::Moving { .. }, SmoothEvent::Moved { status, position, visited }) => {
                if trace_fits(self.corridor, visited, self.capacity) {
                    self.after_moved(status, position, visited)
                } else {
                    self
                }
            },
            (SmoothPhase::Lifting { moved }, SmoothEvent::Height { status, height }) => {
                self.after_height(moved, status, height)
            },
            (SmoothPhase::Emitting { moved, .. }, SmoothEvent::Lifted { lifted }) => {
                self.after_lifted(moved, lifted)
            },
            _ => self,
        }
    }

    /// Whether the state takes the event: it is the answer that the phase
    /// waits for, and a trace fits the corridor.
    pub open spec fn accepts(self, event: SmoothEvent) -> bool {
        match (self.phase, event) {
            (SmoothPhase::Steering, SmoothEvent::StraightPath { .. }) => true,
            (SmoothPhase::Moving { .. }, SmoothEvent::Moved { visited, .. }) => trace_fits(
                self.corridor,
                visited,
                self.capacity,
            ),
            (SmoothPhase::Lifting { .. }, SmoothEvent::Height { .. }) => true,
            (SmoothPhase::Emitting { .. }, SmoothEvent::Lifted { .. }) => true,
            _ => false,
        }
    }

    /// A bound on the answers that smoothing can still take: four for each
    /// waypoint that there is room for, less those already taken in this
    /// round.
    pub open spec fn answers_left(self) -> int {
        let room = self.settings.max_smooth_path - self.waypoints.len();
        match self.phase {
            SmoothPhase::Steering => 4 * room,
            SmoothPhase::Moving { .. } => 4 * room - 1,
            SmoothPhase::Lifting { .. } => 4 * room - 2,
            SmoothPhase::Emitting { .. } => 4 * room - 3,
            SmoothPhase::Finished => 0,
        }
    }

    /// Whether the event completes a round in this state.
    pub open spec fn completes_round(self, event: SmoothEvent) -> bool {
        self.phase is Emitting && event is Lifted
    }

    /// The state after a series of events.
    pub open spec fn after_all(self, events: Seq<SmoothEvent>) -> SmootherView
        decreases events.len(),
    {
        if events.len() == 0 {
            self
        } else {
            self.after_all(events.drop_last()).after(events.last())
        }
    }

    /// How many rounds a series of events completes.
    pub open spec fn rounds(self, events: Seq<SmoothEvent>) -> nat
        decreases events.len(),
    {
        if events.len() == 0 {
            0
        } else {
            let before = self.after_all(events.drop_last());
            let earlier = self.rounds(events.drop_last());
            if before.completes_round(events.last()) {
                earlier + 1
            } else {
                earlier
            }
        }
    }
}

/// Every event keeps the invariant, and the waypoints are only ever appended
/// to: the completion of a round appends one, and nothing else changes them.
/// Every answer that is taken brings the end nearer: the bound on the
/// answers left goes down, and it starts no higher than four times
/// `max_smooth_path`.
pub proof fn lemma_event_keeps_invariant(state: SmootherView, event: SmoothEvent)
    requires
        state.inv(),
    ensures
        state.after(event).inv(),
        state.after(event).settings == state.settings,
        state.after(event).capacity == state.capacity,
        state.completes_round(event) ==> state.after(event).waypoints.len()
            == state.waypoints.len() + 1,
        !state.completes_round(event) ==> state.after(event).waypoints == state.waypoints,
        state.waypoints.is_prefix_of(state.after(event).waypoints),
        !state.accepts(event) ==> state.after(event) == state,
        state.phase is Finished ==> !state.accepts(event),
        0 <= state.answers_left() <= 4 * state.settings.max_smooth_path,
        state.accepts(event) ==> state.after(event).answers_left() < state.answers_left(),
{
    match (state.phase, event) {
        (SmoothPhase::Moving { .. }, SmoothEvent::Moved { status, position, visited }) => {
            if trace_fits(state.corridor, visited, state.capacity) && !status.has(DT_FAILURE)
                && has_common(state.corridor, visited) {
                crate::corridor::lemma_merge_shape(state.corridor, visited, state.capacity);
            }
        },
        _ => {},
    }
}

/// Smoothing ends within as many rounds as the path has room for. Whatever
/// the engine answers, in whatever order the answers come: the invariant
/// holds throughout, each completed round emits exactly one waypoint, and the
/// waypoints never exceed `max_smooth_path`. So from a state with `n`
/// waypoints at most `max_smooth_path - n` rounds complete, and once the
/// smoother has finished no event moves it again.
pub proof fn lemma_rounds_are_bounded(state: SmootherView, events: Seq<SmoothEvent>)
    requires
        state.inv(),
    ensures
        state.after_all(events).inv(),
        state.after_all(events).settings == state.settings,
        state.after_all(events).waypoints.len() == state.waypoints.len() + state.rounds(events),
        state.waypoints.is_prefix_of(state.after_all(events).waypoints),
        state.waypoints.len() + state.rounds(events) <= state.settings.max_smooth_path,
        state.rounds(events) <= state.settings.max_smooth_path,
        state.phase is Finished ==> state.after_all(events) == state && state.rounds(events) == 0,
    decreases events.len(),
{
    if events.len() > 0 {
        lemma_rounds_are_bounded(state, events.drop_last());
        lemma_event_keeps_invariant(state.after_all(events.drop_last()), events.last());
    }
}

/// A smoother: the corridor it pulls tight, the waypoints it has emitted and
/// the request it waits on.
pub struct PathSmoother {
    settings: NavigatorSettings,
    corridor: PathCorridor,
    waypoints: Vec<Vector>,
    position: Vector,
    target: Vector,
    phase: SmoothPhase,
}

impl View for PathSmoother {
    type V = SmootherView;

    closed spec fn view(&self) -> SmootherView {
        SmootherView {
            settings: self.settings,
            corridor: self.corridor@,
            capacity: self.corridor.cap(),
            waypoints: self.waypoints@,
            position: self.position,
            target: self.target,
            phase: self.phase,
        }
    }
}

impl PathSmoother {
    /// The smoother is in a state that smoothing reaches.
    pub open spec fn wf(&self) -> bool {
        self@.inv()
    }

    /// Starts smoothing over `corridor`, from `start`, the point on the
    /// boundary of the first polygon nearest the true start, towards
    /// `target`, the point on the boundary of the last polygon nearest the
    /// true goal. `start` is the first waypoint.
    pub fn begin(
        settings: NavigatorSettings,
        corridor: PathCorridor,
        start: Vector,
        target: Vector,
    ) -> (smoother: PathSmoother)
        requires
            corridor.wf(),
        ensures
            smoother.wf(),
            smoother@ == SmootherView::initial(settings, corridor@, corridor.cap(), start, target),
    {
        let mut waypoints: Vec<Vector> = Vec::new();
        if settings.max_smooth_path > 0 {
            waypoints.push(start);
        }
        let active = !corridor.is_empty() && waypoints.len() < settings.max_smooth_path;
        let phase = if active {
            SmoothPhase::Steering
        } else {
            SmoothPhase::Finished
        };
        let smoother = PathSmoother { settings, corridor, waypoints, position: start, target, phase };
        assert(smoother@.waypoints =~= SmootherView::initial(
            settings,
            corridor@,
            corridor.cap(),
            start,
            target,
        ).waypoints);
        smoother
    }

    /// The request that the smoother waits on.
    pub fn pending(&self) -> (action: SmoothAction)
        requires
            self.wf(),
        ensures
            action == self@.pending(),
    {
        match self.phase {
            SmoothPhase::Steering => SmoothAction::FindStraightPath {
                start: self.position,
                end: self.target,
                max_points: self.settings.max_steer_points,
                radius: self.settings.steer_target_radius,
                height: self.settings.steer_target_height,
                step_size: self.settings.smooth_step_size,
            },
            SmoothPhase::Moving { toward, whole_step } => SmoothAction::MoveAlongSurface {
                start_ref: self.corridor.polys()[0],
                start: self.position,
                toward,
                whole_step,
                step_size: self.settings.smooth_step_size,
                max_visits: self.settings.max_move_visits,
            },
            SmoothPhase::Lifting { moved } => SmoothAction::GetPolyHeight {
                poly: self.corridor.polys()[0],
                position: moved,
            },
            SmoothPhase::Emitting { moved, height } => SmoothAction::Lift {
                height,
                offset: Scalar { bits: WAYPOINT_LIFT },
            },
            SmoothPhase::Finished => SmoothAction::Done,
        }
    }

    /// Takes the straight path over the corridor. A failed query ends
    /// smoothing with its error. Otherwise the first steerable vertex becomes
    /// the steer target and the move towards it is requested; with no such
    /// vertex the goal is reached and smoothing is over.
    pub fn on_straight_path(&mut self, status: DtStatus, candidates: &[SteerCandidate]) -> (result:
        DivertResult<SmoothAction>)
        requires
            old(self).wf(),
            old(self)@.phase is Steering,
        ensures
            final(self).wf(),
            final(self)@ == old(self)@.after_straight_path(status, candidates@),
            final(self)@ == old(self)@.after(
                SmoothEvent::StraightPath { status, candidates: candidates@ },
            ),
            result == match SmootherView::straight_path_error(status) {
                Some(error) => Err::<SmoothAction, DivertError>(error),
                None => Ok::<SmoothAction, DivertError>(final(self)@.pending()),
            },
    {
        if status.is_failed() {
            self.phase = SmoothPhase::Finished;
            return Err(DivertError::FindStraightPathFailure(status));
        }
        match select_steer_target(candidates, &self.position) {
            Some(target) => {
                let whole_step = (target.flags.is_end() || target.flags.is_offmesh_connection())
                    && target.within_step;
                self.phase = SmoothPhase::Moving { toward: target.position, whole_step };
            },
            None => {
                self.phase = SmoothPhase::Finished;
            },
        }
        Ok(self.pending())
    }

    /// Whether the trace of a move fits the corridor, as `on_moved` asks.
    pub fn admits(&self, visited: &[PolyRef]) -> (fits: bool)
        ensures
            fits == trace_fits(self@.corridor, visited@, self@.capacity),
    {
        self.corridor.admits(visited)
    }

    /// Takes the end of the move and the polygons it crossed, oldest first.
    /// A failed move ends smoothing with its error, and so does a trace that
    /// shares no polygon with the corridor. Otherwise the corridor is merged
    /// with the trace and the height at `position` on its first polygon is
    /// requested.
    pub fn on_moved(&mut self, status: DtStatus, position: Vector, visited: &[PolyRef]) -> (result:
        DivertResult<SmoothAction>)
        requires
            old(self).wf(),
            old(self)@.phase is Moving,
            trace_fits(old(self)@.corridor, visited@, old(self)@.capacity),
        ensures
            final(self).wf(),
            final(self)@ == old(self)@.after_moved(status, position, visited@),
            final(self)@ == old(self)@.after(
                SmoothEvent::Moved { status, position, visited: visited@ },
            ),
            result == match old(self)@.moved_error(status, visited@) {
                Some(error) => Err::<SmoothAction, DivertError>(error),
                None => Ok::<SmoothAction, DivertError>(final(self)@.pending()),
            },
    {
        if status.is_failed() {
            self.phase = SmoothPhase::Finished;
            return Err(DivertError::MoveAlongSurfaceFailure(status));
        }
        match self.corridor.merge(visited) {
            Err(error) => {
                self.phase = SmoothPhase::Finished;
                Err(error)
            },
            Ok(()) => {
                self.phase = SmoothPhase::Lifting { moved: position };
                Ok(self.pending())
            },
        }
    }

    /// Takes the height at the end of the move, or zero in its place when
    /// the query failed, and requests its lift.
    pub fn on_height(&mut self, status: DtStatus, height: Scalar) -> (action: SmoothAction)
        requires
            old(self).wf(),
            old(self)@.phase is Lifting,
        ensures
            final(self).wf(),
            final(self)@ == old(self)@.after_height(old(self)@.phase->Lifting_moved, status, height),
            final(self)@ == old(self)@.after(SmoothEvent::Height { status, height }),
            action == final(self)@.pending(),
    {
        if let SmoothPhase::Lifting { moved } = self.phase {
            self.phase = SmoothPhase::Emitting { moved, height: resolve_height(status, height) };
        }
        self.pending()
    }

    /// Takes the lifted height and emits the waypoint: the end of the move,
    /// at that height. The agent stands on it from now on. The next round is
    /// requested if the corridor is not empty and the path has room.
    pub fn on_lifted(&mut self, lifted: Scalar) -> (action: SmoothAction)
        requires
            old(self).wf(),
            old(self)@.phase is Emitting,
        ensures
            final(self).wf(),
            final(self)@ == old(self)@.after_lifted(old(self)@.phase->Emitting_moved, lifted),
            final(self)@ == old(self)@.after(SmoothEvent::Lifted { lifted }),
            action == final(self)@.pending(),
    {
        if let SmoothPhase::Emitting { moved, height } = self.phase {
            let waypoint = Vector::from_yzx(moved.y, lifted, moved.x);
            self.waypoints.push(waypoint);
            self.position = waypoint;
            let active = !self.corridor.is_empty() && self.waypoints.len()
                < self.settings.max_smooth_path;
            self.phase = if active {
                SmoothPhase::Steering
            } else {
                SmoothPhase::Finished
            };
        }
        self.pending()
    }

    /// The phase.
    pub fn phase(&self) -> (phase: SmoothPhase)
        ensures
            phase == self@.phase,
    {
        self.phase
    }

    /// Whether smoothing is over.
    pub fn is_finished(&self) -> (finished: bool)
        ensures
            finished == (self@.phase is Finished),
    {
        match self.phase {
            SmoothPhase::Finished => true,
            _ => false,
        }
    }

    /// The corridor as it stands.
    pub fn corridor(&self) -> (polys: &[PolyRef])
        ensures
            polys@ == self@.corridor,
    {
        self.corridor.polys()
    }

    /// The capacity of the corridor.
    pub fn corridor_capacity(&self) -> (capacity: usize)
        ensures
            capacity == self@.capacity,
    {
        self.corridor.capacity()
    }

    /// The waypoints emitted so far.
    pub fn waypoints(&self) -> (waypoints: &[Vector])
        ensures
            waypoints@ == self@.waypoints,
    {
        self.waypoints.as_slice()
    }

    /// The agent's position.
    pub fn position(&self) -> (position: Vector)
        ensures
            position == self@.position,
    {
        self.position
    }

    /// Gives up the smoother for its waypoints.
    pub fn into_waypoints(self) -> (waypoints: Vec<Vector>)
        ensures
            waypoints@ == self@.waypoints,
    {
        self.waypoints
    }
}

} // verus!
