//! Which tiles of the mesh are resident.
//!
//! The store loads nothing itself. Asked about a tile it answers whether the
//! tile is resident or has to be loaded; told how a load ended it records the
//! tile or gives the error. Tiles are never evicted.

use std::collections::HashSet;
use vstd::prelude::*;
use crate::error::{DivertError, DivertResult};
use crate::status::DtStatus;

verus! {

broadcast use vstd::std_specs::hash::group_hash_axioms;

/// A handle of a registered tile, as the engine gives it.
pub type TileRef = u64;

/// Tile coordinates below this bound have a key of their own.
pub const TILE_COORDINATE_LIMIT: u32 = 0x1_0000;

/// The key of a tile: `tile_x` in the upper sixteen bits, `tile_y` combined
/// into the lower ones.
pub open spec fn pack_spec(tile_x: u32, tile_y: u32) -> u32 {
    (tile_x << 16) | tile_y
}

/// The coordinates that a key stands for.
pub open spec fn unpack_spec(packed: u32) -> (u32, u32) {
    (packed >> 16, packed & 0xffff)
}

/// The key under which a tile is remembered.
#[derive(Clone, Copy, Debug, PartialEq, Eq, Structural)]
pub struct TileId {
    pub packed: u32,
}

impl TileId {
    /// The key of the tile at `(tile_x, tile_y)`.
    pub fn pack(tile_x: u32, tile_y: u32) -> (id: TileId)
        ensures
            id.packed == pack_spec(tile_x, tile_y),
    {
        TileId { packed: (tile_x << 16) | tile_y }
    }

    /// The coordinates of the tile with this key.
    pub fn unpack(self) -> (coordinates: (u32, u32))
        ensures
            coordinates == unpack_spec(self.packed),
    {
        (self.packed >> 16, self.packed & 0xffff)
    }
}

/// Unpacking the key of coordinates below the limit gives them back.
pub proof fn lemma_unpack_pack(tile_x: u32, tile_y: u32)
    requires
        tile_x < TILE_COORDINATE_LIMIT,
        tile_y < TILE_COORDINATE_LIMIT,
    ensures
        unpack_spec(pack_spec(tile_x, tile_y)) == (tile_x, tile_y),
{
    assert(tile_x < 0x1_0000u32 && tile_y < 0x1_0000u32 ==> (((tile_x << 16) | tile_y) >> 16)
        == tile_x && (((tile_x << 16) | tile_y) & 0xffff) == tile_y) by (bit_vector);
}

/// Different coordinates below the limit have different keys.
pub proof fn lemma_pack_injective(ax: u32, ay: u32, bx: u32, by: u32)
    requires
        ax < TILE_COORDINATE_LIMIT,
        ay < TILE_COORDINATE_LIMIT,
        bx < TILE_COORDINATE_LIMIT,
        by < TILE_COORDINATE_LIMIT,
        pack_spec(ax, ay) == pack_spec(bx, by),
    ensures
        ax == bx,
        ay == by,
{
    lemma_unpack_pack(ax, ay);
    lemma_unpack_pack(bx, by);
}

/// What has to happen before a tile can be used.
#[derive(Clone, Copy, Debug, PartialEq, Eq, Structural)]
pub enum TileRequest {
    /// The tile is resident: nothing is to be loaded or registered.
    Resident,
    /// The tile of the map is to be loaded and registered with the engine.
    Load { map_id: u32, tile_x: u32, tile_y: u32 },
}

/// How loading and registering a tile ended.
#[derive(Clone, Copy, Debug, PartialEq, Eq, Structural)]
pub enum TileLoadOutcome {
    /// The engine registered the tile.
    Registered(TileRef),
    /// The loader produced no bytes.
    LoaderFailed,
    /// The engine refused the bytes.
    Rejected(DtStatus),
}

/// The answer of the store of a map, with the given keys, to a question
/// about a tile.
pub open spec fn request_spec(resident: Set<u32>, map_id: u32, tile_x: u32, tile_y: u32) -> TileRequest {
    if resident.contains(pack_spec(tile_x, tile_y)) {
        TileRequest::Resident
    } else {
        TileRequest::Load { map_id, tile_x, tile_y }
    }
}

/// The keys after a load of the tile at `(tile_x, tile_y)` ended in `outcome`.
pub open spec fn after_load(
    resident: Set<u32>,
    tile_x: u32,
    tile_y: u32,
    outcome: TileLoadOutcome,
) -> Set<u32> {
    match outcome {
        TileLoadOutcome::Registered(_) => resident.insert(pack_spec(tile_x, tile_y)),
        _ => resident,
    }
}

/// What the store returns when a load ended in `outcome`.
pub open spec fn load_result(outcome: TileLoadOutcome) -> DivertResult<()> {
    match outcome {
        TileLoadOutcome::Registered(_) => Ok(()),
        TileLoadOutcome::LoaderFailed => Err(DivertError::TileLoadFailure),
        TileLoadOutcome::Rejected(status) => Err(DivertError::TileRejected(status)),
    }
}

/// The keys after a series of loads, each given by its tile and its outcome.
pub open spec fn after_loads(resident: Set<u32>, loads: Seq<(u32, u32, TileLoadOutcome)>) -> Set<
    u32,
>
    decreases loads.len(),
{
    if loads.len() == 0 {
        resident
    } else {
        let (tile_x, tile_y, outcome) = loads.last();
        after_load(after_loads(resident, loads.drop_last()), tile_x, tile_y, outcome)
    }
}

/// A resident tile stays resident whatever is loaded afterwards, whether
/// those loads succeed or fail.
pub proof fn lemma_residency_is_kept(
    resident: Set<u32>,
    loads: Seq<(u32, u32, TileLoadOutcome)>,
    key: u32,
)
    requires
        resident.contains(key),
    ensures
        after_loads(resident, loads).contains(key),
    decreases loads.len(),
{
    if loads.len() > 0 {
        lemma_residency_is_kept(resident, loads.drop_last(), key);
    }
}

/// No tile is registered twice. Once the load of a tile has ended with its
/// registration, the store answers every later question about that tile with
/// `Resident`, whatever other tiles were asked for and loaded in between.
pub proof fn lemma_registered_tile_is_not_requested_again(
    resident: Set<u32>,
    map_id: u32,
    tile_x: u32,
    tile_y: u32,
    tile: TileRef,
    loads: Seq<(u32, u32, TileLoadOutcome)>,
)
    ensures
        request_spec(
            after_loads(
                after_load(resident, tile_x, tile_y, TileLoadOutcome::Registered(tile)),
                loads,
            ),
            map_id,
            tile_x,
            tile_y,
        ) == TileRequest::Resident,
{
    lemma_residency_is_kept(
        after_load(resident, tile_x, tile_y, TileLoadOutcome::Registered(tile)),
        loads,
        pack_spec(tile_x, tile_y),
    );
}

/// The resident tiles of one map.
pub struct TileStore {
    map_id: u32,
    resident: HashSet<u32>,
}

impl View for TileStore {
    type V = Set<u32>;

    closed spec fn view(&self) -> Set<u32> {
        self.resident@
    }
}

impl TileStore {
    /// The map whose tiles the store keeps.
    pub closed spec fn map(&self) -> u32 {
        self.map_id
    }

    /// A store for the map `map_id`, with no resident tile.
    pub fn new(map_id: u32) -> (store: TileStore)
        ensures
            store@ == Set::<u32>::empty(),
            store.map() == map_id,
    {
        TileStore { map_id, resident: HashSet::new() }
    }

    /// The map whose tiles the store keeps.
    pub fn map_id(&self) -> (map_id: u32)
        ensures
            map_id == self.map(),
    {
        self.map_id
    }

    /// Whether the tile at `(tile_x, tile_y)` is resident.
    pub fn has_tile(&self, tile_x: u32, tile_y: u32) -> (found: bool)
        ensures
            found == self@.contains(pack_spec(tile_x, tile_y)),
    {
        let id = TileId::pack(tile_x, tile_y);
        self.resident.contains(&id.packed)
    }

    /// What has to happen before the tile at `(tile_x, tile_y)` can be used:
    /// nothing if it is resident, else its load.
    pub fn ensure_loaded(&self, tile_x: u32, tile_y: u32) -> (request: TileRequest)
        ensures
            request == request_spec(self@, self.map(), tile_x, tile_y),
    {
        if self.has_tile(tile_x, tile_y) {
            TileRequest::Resident
        } else {
            TileRequest::Load { map_id: self.map_id, tile_x, tile_y }
        }
    }

    /// Records how the load of the tile at `(tile_x, tile_y)` ended. The tile
    /// becomes resident exactly when the engine registered it; a loader
    /// without bytes or a refusal by the engine is returned as the error and
    /// leaves the store as it was.
    pub fn finish_load(&mut self, tile_x: u32, tile_y: u32, outcome: TileLoadOutcome) -> (result:
        DivertResult<()>)
        ensures
            final(self)@ == after_load(old(self)@, tile_x, tile_y, outcome),
            final(self).map() == old(self).map(),
            result == load_result(outcome),
    {
        match outcome {
            TileLoadOutcome::Registered(_) => {
                let id = TileId::pack(tile_x, tile_y);
                self.resident.insert(id.packed);
                Ok(())
            },
            TileLoadOutcome::LoaderFailed => Err(DivertError::TileLoadFailure),
            TileLoadOutcome::Rejected(status) => Err(DivertError::TileRejected(status)),
        }
    }
}

} // verus!
