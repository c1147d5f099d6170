//! One path request from start to end, as a machine that the caller drives.
//!
//! A request first makes the tiles under its two endpoints resident, then
//! locates the polygon nearest each endpoint, plans the corridor between the
//! two polygons, brings both endpoints onto the boundary of their polygons
//! and hands over to the smoother. The navigator decides what is asked next
//! and what an answer means; the caller asks.

use vstd::prelude::*;
use crate::corridor::{PathCorridor, PolyRef};
use crate::error::{DivertError, DivertResult};
use crate::settings::NavigatorSettings;
use crate::smooth::{PathSmoother, SmootherView};
use crate::status::{DtStatus, DT_FAILURE};
use crate::tile::{
    after_load, lemma_pack_injective, load_result, pack_spec, TileLoadOutcome, TileRef, TileStore,
    TILE_COORDINATE_LIMIT,
};
use crate::vector::{Scalar, Vector};

verus! {

/// The bit pattern of `3.0`: how far the search for a polygon reaches
/// horizontally.
pub const SEARCH_EXTENT_HORIZONTAL: u32 = 0x4040_0000;
/// The bit pattern of `5.0`: how far the search for a polygon reaches
/// vertically.
pub const SEARCH_EXTENT_VERTICAL: u32 = 0x40a0_0000;

/// The polygon reference that stands for no polygon.
pub const NO_POLYGON: PolyRef = 0;

/// Half the size of the box in which the polygon nearest an endpoint is
/// searched.
pub open spec fn search_extents() -> Vector {
    Vector::at(
        Scalar { bits: SEARCH_EXTENT_HORIZONTAL },
        Scalar { bits: SEARCH_EXTENT_HORIZONTAL },
        Scalar { bits: SEARCH_EXTENT_VERTICAL },
    )
}

/// The endpoints of a request, each with the tile it lies in.
#[derive(Clone, Copy, Debug, PartialEq, Eq, Structural)]
pub struct PathRequest {
    pub start: Vector,
    pub end: Vector,
    pub start_tile_x: u32,
    pub start_tile_y: u32,
    pub end_tile_x: u32,
    pub end_tile_y: u32,
}

impl PathRequest {
    /// The key of the tile under the start.
    pub open spec fn start_key(self) -> u32 {
        pack_spec(self.start_tile_x, self.start_tile_y)
    }

    /// The key of the tile under the end.
    pub open spec fn end_key(self) -> u32 {
        pack_spec(self.end_tile_x, self.end_tile_y)
    }
}

/// Where a navigator stands within a request.
#[derive(Clone, Copy, Debug, PartialEq, Eq, Structural)]
pub enum NavPhase {
    /// No request is under way.
    Idle,
    /// Waiting for the tile under the start.
    LoadingStart,
    /// Waiting for the tile under the end.
    LoadingEnd,
    /// Waiting for the polygon nearest the start.
    LocatingStart,
    /// Waiting for the polygon nearest the end.
    LocatingEnd { start_ref: PolyRef, start_pos: Vector },
    /// Waiting for the corridor.
    Planning { start_ref: PolyRef, start_pos: Vector, end_ref: PolyRef, end_pos: Vector },
    /// Waiting for the point on the first polygon's boundary.
    ClampingStart { start_pos: Vector, end_pos: Vector },
    /// Waiting for the point on the last polygon's boundary.
    ClampingEnd { first: Vector, end_pos: Vector },
}

/// What the caller has to do next.
#[derive(Clone, Copy, Debug, PartialEq, Eq, Structural)]
pub enum NavAction {
    /// Nothing: no request is under way.
    Idle,
    /// Load the tile of the map and register it with the engine.
    LoadTile { map_id: u32, tile_x: u32, tile_y: u32 },
    /// Find the polygon nearest `center` within `extents`.
    FindNearestPoly { center: Vector, extents: Vector },
    /// Plan a corridor of at most `max_path` polygons.
    FindPath {
        start_ref: PolyRef,
        end_ref: PolyRef,
        start_pos: Vector,
        end_pos: Vector,
        max_path: usize,
    },
    /// Find the point on the boundary of `poly` nearest `position`.
    ClosestPointOnPolyBoundary { poly: PolyRef, position: Vector },
}

/// The state of a navigator, as contracts see it.
pub struct NavigatorView {
    pub map_id: u32,
    pub settings: NavigatorSettings,
    pub resident: Set<u32>,
    pub phase: NavPhase,
    pub request: PathRequest,
    pub corridor: Seq<PolyRef>,
}

impl NavigatorView {
    /// Both tiles of the request are resident.
    pub open spec fn tiles_resident(self) -> bool {
        self.resident.contains(self.request.start_key()) && self.resident.contains(
            self.request.end_key(),
        )
    }

    /// The corridor is planned: not empty and within the capacity.
    pub open spec fn corridor_planned(self) -> bool {
        1 <= self.corridor.len() <= self.settings.max_path
    }

    /// What holds of every state that a navigator reaches: a tile is asked
    /// for only while it is not resident, the end tile only once the start
    /// tile is resident, and the engine is queried only once both are.
    pub open spec fn inv(self) -> bool {
        match self.phase {
            NavPhase::Idle => true,
            NavPhase::LoadingStart => !self.resident.contains(self.request.start_key()),
            NavPhase::LoadingEnd => self.resident.contains(self.request.start_key())
                && !self.resident.contains(self.request.end_key()),
            NavPhase::LocatingStart => self.tiles_resident(),
            NavPhase::LocatingEnd { .. } => self.tiles_resident(),
            NavPhase::Planning { .. } => self.tiles_resident(),
            NavPhase::ClampingStart { .. } => self.tiles_resident() && self.corridor_planned(),
            NavPhase::ClampingEnd { .. } => self.tiles_resident() && self.corridor_planned(),
        }
    }

    /// The phase that the tiles put a request in: the first tile that is
    /// missing is loaded, the start tile before the end tile; with both
    /// resident the start is located.
    pub open spec fn tile_phase(self) -> NavPhase {
        if !self.resident.contains(self.request.start_key()) {
            NavPhase::LoadingStart
        } else if !self.resident.contains(self.request.end_key()) {
            NavPhase::LoadingEnd
        } else {
            NavPhase::LocatingStart
        }
    }

    /// The state with another phase.
    pub open spec fn in_phase(self, phase: NavPhase) -> NavigatorView {
        NavigatorView { phase, ..self }
    }

    /// The state in which a failed request leaves the navigator.
    pub open spec fn abandoned(self) -> NavigatorView {
        self.in_phase(NavPhase::Idle)
    }

    /// The request that the state waits on.
    pub open spec fn pending(self) -> NavAction {
        match self.phase {
            NavPhase::Idle => NavAction::Idle,
            NavPhase::LoadingStart => NavAction::LoadTile {
                map_id: self.map_id,
                tile_x: self.request.start_tile_x,
                tile_y: self.request.start_tile_y,
            },
            NavPhase::LoadingEnd => NavAction::LoadTile {
                map_id: self.map_id,
                tile_x: self.request.end_tile_x,
                tile_y: self.request.end_tile_y,
            },
            NavPhase::LocatingStart => NavAction::FindNearestPoly {
                center: self.request.start,
                extents: search_extents(),
            },
            NavPhase::LocatingEnd { .. } => NavAction::FindNearestPoly {
                center: self.request.end,
                extents: search_extents(),
            },
            NavPhase::Planning { start_ref, start_pos, end_ref, end_pos } => NavAction::FindPath {
                start_ref,
                end_ref,
                start_pos,
                end_pos,
                max_path: self.settings.max_path,
            },
            NavPhase::ClampingStart { start_pos, .. } => NavAction::ClosestPointOnPolyBoundary {
                poly: self.corridor[0],
                position: start_pos,
            },
            NavPhase::ClampingEnd { end_pos, .. } => NavAction::ClosestPointOnPolyBoundary {
                poly: self.corridor[self.corridor.len() - 1],
                position: end_pos,
            },
        }
    }

    /// The state after a request was made, whatever went before.
    pub open spec fn begun(self, request: PathRequest) -> NavigatorView {
        let fresh = NavigatorView { request, corridor: Seq::<PolyRef>::empty(), ..self };
        fresh.in_phase(fresh.tile_phase())
    }

    /// The tile that the state waits for.
    pub open spec fn loading_tile(self) -> (u32, u32) {
        if self.phase is LoadingStart {
            (self.request.start_tile_x, self.request.start_tile_y)
        } else {
            (self.request.end_tile_x, self.request.end_tile_y)
        }
    }

    /// The state after the load of the awaited tile ended.
    pub open spec fn after_tile_loaded(self, outcome: TileLoadOutcome) -> NavigatorView {
        let (tile_x, tile_y) = self.loading_tile();
        let loaded = NavigatorView {
            resident: after_load(self.resident, tile_x, tile_y, outcome),
            ..self
        };
        if load_result(outcome) is Err {
            loaded.abandoned()
        } else {
            loaded.in_phase(loaded.tile_phase())
        }
    }

    /// The error, if any, with which a nearest-polygon answer ends the
    /// request: the failure of the query, or that it found no polygon.
    pub open spec fn nearest_error(status: DtStatus, poly: PolyRef) -> Option<DivertError> {
        if status.has(DT_FAILURE) {
            Some(DivertError::FindNearestPolyFailure(status))
        } else if poly == NO_POLYGON {
            Some(DivertError::NoNearbyPolygon)
        } else {
            None
        }
    }

    /// The state after a nearest-polygon answer.
    pub open spec fn after_nearest_poly(
        self,
        status: DtStatus,
        poly: PolyRef,
        point: Vector,
    ) -> NavigatorView {
        if NavigatorView::nearest_error(status, poly) is Some {
            self.abandoned()
        } else {
            match self.phase {
                NavPhase::LocatingEnd { start_ref, start_pos } => self.in_phase(
                    NavPhase::Planning { start_ref, start_pos, end_ref: poly, end_pos: point },
                ),
                _ => self.in_phase(NavPhase::LocatingEnd { start_ref: poly, start_pos: point }),
            }
        }
    }

    /// The error, if any, with which the answer of an engine query ends the
    /// request.
    pub open spec fn status_error(status: DtStatus, error: DivertError) -> Option<DivertError> {
        if status.has(DT_FAILURE) {
            Some(error)
        } else {
            None
        }
    }

    /// The state after the corridor came back. A corridor that stops short
    /// of the goal is taken as it is.
    pub open spec fn after_path(self, status: DtStatus, polys: Seq<PolyRef>) -> NavigatorView {
        if status.has(DT_FAILURE) {
            self.abandoned()
        } else {
            match self.phase {
                NavPhase::Planning { start_pos, end_pos, .. } => NavigatorView {
                    corridor: polys,
                    phase: NavPhase::ClampingStart { start_pos, end_pos },
                    ..self
                },
                _ => self,
            }
        }
    }

    /// The state after the point on the first polygon's boundary came back.
    pub open spec fn after_start_clamped(self, status: DtStatus, point: Vector) -> NavigatorView {
        if status.has(DT_FAILURE) {
            self.abandoned()
        } else {
            match self.phase {
                NavPhase::ClampingStart { end_pos, .. } => self.in_phase(
                    NavPhase::ClampingEnd { first: point, end_pos },
                ),
                _ => self,
            }
        }
    }

    /// The state after the point on the last polygon's boundary came back:
    /// the request is over, and its corridor has gone to the smoother.
    pub open spec fn after_target_clamped(self) -> NavigatorView {
        NavigatorView { corridor: Seq::<PolyRef>::empty(), phase: NavPhase::Idle, ..self }
    }

    /// The smoother that a request hands over to.
    pub open spec fn smoother(self, target: Vector) -> SmootherView {
        SmootherView::initial(
            self.settings,
            self.corridor,
            self.settings.max_path as int,
            self.phase->ClampingEnd_first,
            target,
        )
    }
}

/// A tile is asked for only while it is not resident, and the engine is
/// queried only once both tiles of the request are resident.
pub proof fn lemma_requests_respect_tiles(state: NavigatorView)
    requires
        state.inv(),
    ensures
        match state.pending() {
            NavAction::Idle => true,
            NavAction::LoadTile { tile_x, tile_y, .. } => !state.resident.contains(
                pack_spec(tile_x, tile_y),
            ),
            _ => state.tiles_resident(),
        },
{
}

/// A request whose endpoints lie in two different tiles, neither of them
/// resident, loads the start tile, then the end tile, and only then queries
/// the engine; by then exactly those two tiles have been added.
pub proof fn lemma_two_tiles_are_loaded_in_turn(
    state: NavigatorView,
    request: PathRequest,
    first: TileRef,
    second: TileRef,
)
    requires
        request.start_tile_x < TILE_COORDINATE_LIMIT,
        request.start_tile_y < TILE_COORDINATE_LIMIT,
        request.end_tile_x < TILE_COORDINATE_LIMIT,
        request.end_tile_y < TILE_COORDINATE_LIMIT,
        (request.start_tile_x, request.start_tile_y) != (request.end_tile_x, request.end_tile_y),
        !state.resident.contains(request.start_key()),
        !state.resident.contains(request.end_key()),
    ensures
        ({
            let begun = state.begun(request);
            let one = begun.after_tile_loaded(TileLoadOutcome::Registered(first));
            let two = one.after_tile_loaded(TileLoadOutcome::Registered(second));
            &&& begun.pending() == NavAction::LoadTile {
                map_id: state.map_id,
                tile_x: request.start_tile_x,
                tile_y: request.start_tile_y,
            }
            &&& one.pending() == NavAction::LoadTile {
                map_id: state.map_id,
                tile_x: request.end_tile_x,
                tile_y: request.end_tile_y,
            }
            &&& two.pending() is FindNearestPoly
            &&& request.start_key() != request.end_key()
            &&& two.resident == state.resident.insert(request.start_key()).insert(
                request.end_key(),
            )
        }),
{
    if request.start_key() == request.end_key() {
        lemma_pack_injective(
            request.start_tile_x,
            request.start_tile_y,
            request.end_tile_x,
            request.end_tile_y,
        );
    }
}

/// A navigator: its settings, the tiles it has made resident and the request
/// under way.
pub struct Navigator {
    settings: NavigatorSettings,
    tiles: TileStore,
    phase: NavPhase,
    request: PathRequest,
    polys: Vec<PolyRef>,
}

impl View for Navigator {
    type V = NavigatorView;

    closed spec fn view(&self) -> NavigatorView {
        NavigatorView {
            map_id: self.tiles.map(),
            settings: self.settings,
            resident: self.tiles@,
            phase: self.phase,
            request: self.request,
            corridor: self.polys@,
        }
    }
}

impl Navigator {
    /// The navigator is in a state that requests reach.
    pub open spec fn wf(&self) -> bool {
        self@.inv()
    }

    /// A navigator for the map `map_id`, with no resident tile and no
    /// request under way.
    pub fn new(map_id: u32, settings: NavigatorSettings) -> (navigator: Navigator)
        ensures
            navigator.wf(),
            navigator@.map_id == map_id,
            navigator@.settings == settings,
            navigator@.resident == Set::<u32>::empty(),
            navigator@.phase is Idle,
            navigator@.corridor == Seq::<PolyRef>::empty(),
    {
        let origin = Vector::from_xyz(Scalar::zero(), Scalar::zero(), Scalar::zero());
        Navigator {
            settings,
            tiles: TileStore::new(map_id),
            phase: NavPhase::Idle,
            request: PathRequest {
                start: origin,
                end: origin,
                start_tile_x: 0,
                start_tile_y: 0,
                end_tile_x: 0,
                end_tile_y: 0,
            },
            polys: Vec::new(),
        }
    }

    /// The settings.
    pub fn settings(&self) -> (settings: NavigatorSettings)
        ensures
            settings == self@.settings,
    {
        self.settings
    }

    /// The map.
    pub fn map_id(&self) -> (map_id: u32)
        ensures
            map_id == self@.map_id,
    {
        self.tiles.map_id()
    }

    /// The phase.
    pub fn phase(&self) -> (phase: NavPhase)
        ensures
            phase == self@.phase,
    {
        self.phase
    }

    /// Whether the tile at `(tile_x, tile_y)` is resident.
    pub fn has_tile(&self, tile_x: u32, tile_y: u32) -> (found: bool)
        ensures
            found == self@.resident.contains(pack_spec(tile_x, tile_y)),
    {
        self.tiles.has_tile(tile_x, tile_y)
    }

    /// The corridor of the request under way.
    pub fn corridor(&self) -> (polys: &[PolyRef])
        ensures
            polys@ == self@.corridor,
    {
        self.polys.as_slice()
    }

    fn tile_phase(&self) -> (phase: NavPhase)
        ensures
            phase == self@.tile_phase(),
    {
        if !self.tiles.has_tile(self.request.start_tile_x, self.request.start_tile_y) {
            NavPhase::LoadingStart
        } else if !self.tiles.has_tile(self.request.end_tile_x, self.request.end_tile_y) {
            NavPhase::LoadingEnd
        } else {
            NavPhase::LocatingStart
        }
    }

    /// The request that the navigator waits on.
    pub fn pending(&self) -> (action: NavAction)
        requires
            self.wf(),
        ensures
            action == self@.pending(),
    {
        match self.phase {
            NavPhase::Idle => NavAction::Idle,
            NavPhase::LoadingStart => NavAction::LoadTile {
                map_id: self.tiles.map_id(),
                tile_x: self.request.start_tile_x,
                tile_y: self.request.start_tile_y,
            },
            NavPhase::LoadingEnd => NavAction::LoadTile {
                map_id: self.tiles.map_id(),
                tile_x: self.request.end_tile_x,
                tile_y: self.request.end_tile_y,
            },
            NavPhase::LocatingStart => NavAction::FindNearestPoly {
                center: self.request.start,
                extents: Vector::from_yzx(
                    Scalar::from_bits(SEARCH_EXTENT_HORIZONTAL),
                    Scalar::from_bits(SEARCH_EXTENT_VERTICAL),
                    Scalar::from_bits(SEARCH_EXTENT_HORIZONTAL),
                ),
            },
            NavPhase::LocatingEnd { .. } => NavAction::FindNearestPoly {
                center: self.request.end,
                extents: Vector::from_yzx(
                    Scalar::from_bits(SEARCH_EXTENT_HORIZONTAL),
                    Scalar::from_bits(SEARCH_EXTENT_VERTICAL),
                    Scalar::from_bits(SEARCH_EXTENT_HORIZONTAL),
                ),
            },
            NavPhase::Planning { start_ref, start_pos, end_ref, end_pos } => NavAction::FindPath {
                start_ref,
                end_ref,
                start_pos,
                end_pos,
                max_path: self.settings.max_path,
            },
            NavPhase::ClampingStart { start_pos, .. } => NavAction::ClosestPointOnPolyBoundary {
                poly: self.polys[0],
                position: start_pos,
            },
            NavPhase::ClampingEnd { end_pos, .. } => NavAction::ClosestPointOnPolyBoundary {
                poly: self.polys[self.polys.len() - 1],
                position: end_pos,
            },
        }
    }

    /// Begins a request from `start` to `end`, which lie in the tiles
    /// `start_tile` and `end_tile`. A request under way is dropped; the
    /// resident tiles stay. Asks for the start tile if it is missing, else
    /// for the end tile if that is missing, else for the polygon nearest the
    /// start.
    pub fn find_path(
        &mut self,
        start: Vector,
        end: Vector,
        start_tile: (u32, u32),
        end_tile: (u32, u32),
    ) -> (action: NavAction)
        ensures
            final(self).wf(),
            final(self)@ == old(self)@.begun(
                PathRequest {
                    start,
                    end,
                    start_tile_x: start_tile.0,
                    start_tile_y: start_tile.1,
                    end_tile_x: end_tile.0,
                    end_tile_y: end_tile.1,
                },
            ),
            action == final(self)@.pending(),
    {
        self.request = PathRequest {
            start,
            end,
            start_tile_x: start_tile.0,
            start_tile_y: start_tile.1,
            end_tile_x: end_tile.0,
            end_tile_y: end_tile.1,
        };
        self.polys = Vec::new();
        self.phase = self.tile_phase();
        self.pending()
    }

    /// Takes the outcome of the load that was asked for. A load that failed
    /// ends the request with its error. A registered tile becomes resident,
    /// and the request goes on with the end tile if that is still missing,
    /// else with the polygon nearest the start.
    pub fn on_tile_loaded(&mut self, outcome: TileLoadOutcome) -> (result: DivertResult<NavAction>)
        requires
            old(self).wf(),
            old(self)@.phase is LoadingStart || old(self)@.phase is LoadingEnd,
        ensures
            final(self).wf(),
            final(self)@ == old(self)@.after_tile_loaded(outcome),
            result == match load_result(outcome) {
                Err(error) => Err::<NavAction, DivertError>(error),
                Ok(_) => Ok::<NavAction, DivertError>(final(self)@.pending()),
            },
    {
        let (tile_x, tile_y) = match self.phase {
            NavPhase::LoadingStart => (self.request.start_tile_x, self.request.start_tile_y),
            _ => (self.request.end_tile_x, self.request.end_tile_y),
        };
        match self.tiles.finish_load(tile_x, tile_y, outcome) {
            Err(error) => {
                self.phase = NavPhase::Idle;
                Err(error)
            },
            Ok(()) => {
                self.phase = self.tile_phase();
                Ok(self.pending())
            },
        }
    }

    /// Takes the polygon nearest the endpoint that was asked about, with the
    /// point on it. A failed query ends the request with its error, and so
    /// does an answer without a polygon. After the start the end is asked
    /// about; after the end the corridor between the two polygons.
    pub fn on_nearest_poly(&mut self, status: DtStatus, poly: PolyRef, point: Vector) -> (result:
        DivertResult<NavAction>)
        requires
            old(self).wf(),
            old(self)@.phase is LocatingStart || old(self)@.phase is LocatingEnd,
        ensures
            final(self).wf(),
            final(self)@ == old(self)@.after_nearest_poly(status, poly, point),
            result == match NavigatorView::nearest_error(status, poly) {
                Some(error) => Err::<NavAction, DivertError>(error),
                None => Ok::<NavAction, DivertError>(final(self)@.pending()),
            },
    {
        if status.is_failed() {
            self.phase = NavPhase::Idle;
            return Err(DivertError::FindNearestPolyFailure(status));
        }
        if poly == NO_POLYGON {
            self.phase = NavPhase::Idle;
            return Err(DivertError::NoNearbyPolygon);
        }
        self.phase = match self.phase {
            NavPhase::LocatingEnd { start_ref, start_pos } => NavPhase::Planning {
                start_ref,
                start_pos,
                end_ref: poly,
                end_pos: point,
            },
            _ => NavPhase::LocatingEnd { start_ref: poly, start_pos: point },
        };
        Ok(self.pending())
    }

    /// Takes the corridor. A failed query ends the request with its error. A
    /// corridor that only reaches the polygon closest to the goal is no
    /// failure: the request goes on with it. Next the start is brought onto
    /// the boundary of the first polygon.
    pub fn on_path(&mut self, status: DtStatus, polys: Vec<PolyRef>) -> (result: DivertResult<
        NavAction,
    >)
        requires
            old(self).wf(),
            old(self)@.phase is Planning,
            !status.has(DT_FAILURE) ==> 1 <= polys@.len() <= old(self)@.settings.max_path,
        ensures
            final(self).wf(),
            final(self)@ == old(self)@.after_path(status, polys@),
            result == match NavigatorView::status_error(
                status,
                DivertError::FindPathFailure(status),
            ) {
                Some(error) => Err::<NavAction, DivertError>(error),
                None => Ok::<NavAction, DivertError>(final(self)@.pending()),
            },
    {
        if status.is_failed() {
            self.phase = NavPhase::Idle;
            return Err(DivertError::FindPathFailure(status));
        }
        if let NavPhase::Planning { start_ref, start_pos, end_ref, end_pos } = self.phase {
            self.polys = polys;
            self.phase = NavPhase::ClampingStart { start_pos, end_pos };
        }
        Ok(self.pending())
    }

    /// Takes the point on the boundary of the first polygon nearest the
    /// start: the first waypoint. A failed query ends the request with its
    /// error. Next the end is brought onto the boundary of the last polygon.
    pub fn on_start_clamped(&mut self, status: DtStatus, point: Vector) -> (result: DivertResult<
        NavAction,
    >)
        requires
            old(self).wf(),
            old(self)@.phase is ClampingStart,
        ensures
            final(self).wf(),
            final(self)@ == old(self)@.after_start_clamped(status, point),
            result == match NavigatorView::status_error(
                status,
                DivertError::ClosestPointOnPolyBoundaryFailure(status),
            ) {
                Some(error) => Err::<NavAction, DivertError>(error),
                None => Ok::<NavAction, DivertError>(final(self)@.pending()),
            },
    {
        if status.is_failed() {
            self.phase = NavPhase::Idle;
            return Err(DivertError::ClosestPointOnPolyBoundaryFailure(status));
        }
        if let NavPhase::ClampingStart { start_pos, end_pos } = self.phase {
            self.phase = NavPhase::ClampingEnd { first: point, end_pos };
        }
        Ok(self.pending())
    }

    /// Takes the point on the boundary of the last polygon nearest the end:
    /// the target of smoothing. A failed query ends the request with its
    /// error. Otherwise the request is complete and its smoother is handed
    /// out, with the first waypoint emitted.
    pub fn on_target_clamped(&mut self, status: DtStatus, point: Vector) -> (result: DivertResult<
        PathSmoother,
    >)
        requires
            old(self).wf(),
            old(self)@.phase is ClampingEnd,
        ensures
            final(self).wf(),
            final(self)@ == if status.has(DT_FAILURE) {
                old(self)@.abandoned()
            } else {
                old(self)@.after_target_clamped()
            },
            result is Err <==> status.has(DT_FAILURE),
            result is Err ==> result->Err_0 == DivertError::ClosestPointOnPolyBoundaryFailure(
                status,
            ),
            result is Ok ==> result->Ok_0.wf() && result->Ok_0@ == old(self)@.smoother(point),
    {
        if status.is_failed() {
            self.phase = NavPhase::Idle;
            return Err(DivertError::ClosestPointOnPolyBoundaryFailure(status));
        }
        let first = match self.phase {
            NavPhase::ClampingEnd { first, .. } => first,
            _ => point,
        };
        let mut polys: Vec<PolyRef> = Vec::new();
        core::mem::swap(&mut self.polys, &mut polys);
        self.phase = NavPhase::Idle;
        match PathCorridor::from_polys(polys, self.settings.max_path) {
            Some(corridor) => Ok(PathSmoother::begin(self.settings, corridor, first, point)),
            None => vstd::pervasive::unreached(),
        }
    }
}

} // verus!
