//! The parameter record of a mesh: seven little-endian words.

use vstd::prelude::*;
use crate::vector::Scalar;

verus! {

/// The length of the record in bytes.
pub const NAV_MESH_PARAMS_LEN: usize = 28;

/// The parameters a mesh is created with.
#[derive(Clone, Copy, Debug, PartialEq, Eq)]
pub struct NavMeshParams {
    /// The origin of the tile grid, in the engine's axis order.
    pub origin: [Scalar; 3],
    /// The width of a tile.
    pub tile_width: Scalar,
    /// The height of a tile.
    pub tile_height: Scalar,
    /// The most tiles the mesh can hold.
    pub max_tiles: i32,
    /// The most polygons a tile can hold.
    pub max_polys: i32,
}

/// The little-endian word that starts at `bytes[at]`.
pub open spec fn word_at(bytes: Seq<u8>, at: int) -> int {
    bytes[at] + 0x100 * bytes[at + 1] + 0x1_0000 * bytes[at + 2] + 0x100_0000 * bytes[at + 3]
}

/// The signed number with the two's complement pattern `word`.
pub open spec fn signed(word: int) -> int {
    if word < 0x8000_0000 {
        word
    } else {
        word - 0x1_0000_0000
    }
}

/// The record at the front of `bytes` says `params`.
pub open spec fn encodes(bytes: Seq<u8>, params: NavMeshParams) -> bool {
    &&& params.origin@.len() == 3
    &&& params.origin@[0].bits == word_at(bytes, 0)
    &&& params.origin@[1].bits == word_at(bytes, 4)
    &&& params.origin@[2].bits == word_at(bytes, 8)
    &&& params.tile_width.bits == word_at(bytes, 12)
    &&& params.tile_height.bits == word_at(bytes, 16)
    &&& params.max_tiles == signed(word_at(bytes, 20))
    &&& params.max_polys == signed(word_at(bytes, 24))
}

fn read_word(bytes: &[u8], at: usize) -> (word: u32)
    requires
        at + 4 <= bytes@.len(),
    ensures
        word == word_at(bytes@, at as int),
{
    let b0: u32 = bytes[at] as u32;
    let b1: u32 = bytes[at + 1] as u32;
    let b2: u32 = bytes[at + 2] as u32;
    let b3: u32 = bytes[at + 3] as u32;
    b0 + 0x100 * b1 + 0x1_0000 * b2 + 0x100_0000 * b3
}

fn read_signed(bytes: &[u8], at: usize) -> (number: i32)
    requires
        at + 4 <= bytes@.len(),
    ensures
        number == signed(word_at(bytes@, at as int)),
{
    let word = read_word(bytes, at);
    if word < 0x8000_0000 {
        word as i32
    } else {
        let low: u32 = word - 0x8000_0000;
        (low as i32) + i32::MIN
    }
}

/// Reads the parameter record at the front of `bytes`: the origin, the
/// width and the height of a tile as floats, then the two limits as signed
/// numbers. There is a record exactly when there are twenty-eight bytes;
/// what follows them is not looked at.
pub fn read_nav_mesh_params_from(bytes: &[u8]) -> (params: Option<NavMeshParams>)
    ensures
        params is Some <==> bytes@.len() >= NAV_MESH_PARAMS_LEN,
        params is Some ==> encodes(bytes@, params->0),
{
    if bytes.len() < NAV_MESH_PARAMS_LEN {
        return None;
    }
    let origin = [
        Scalar::from_bits(read_word(bytes, 0)),
        Scalar::from_bits(read_word(bytes, 4)),
        Scalar::from_bits(read_word(bytes, 8)),
    ];
    Some(
        NavMeshParams {
            origin,
            tile_width: Scalar::from_bits(read_word(bytes, 12)),
            tile_height: Scalar::from_bits(read_word(bytes, 16)),
            max_tiles: read_signed(bytes, 20),
            max_polys: read_signed(bytes, 24),
        },
    )
}

} // verus!
