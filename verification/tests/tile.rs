use divert::status::{DT_ALREADY_OCCUPIED, DT_FAILURE};
use divert::{DivertError, DtStatus, TileId, TileLoadOutcome, TileRequest, TileStore};

#[test]
fn pack_puts_x_in_the_upper_half() {
    assert_eq!(TileId::pack(35, 22).packed, (35 << 16) | 22);
    assert_eq!(TileId::pack(35, 22).packed, 0x0023_0016);
    assert_eq!(TileId::pack(0, 0).packed, 0);
    assert_eq!(TileId::pack(65535, 65535).packed, 0xffff_ffff);
    assert_eq!(TileId::pack(1, 0).packed, 0x1_0000);
    assert_eq!(TileId::pack(0, 1).packed, 1);
}

#[test]
fn unpack_gives_the_coordinates_back() {
    let samples = [0u32, 1, 2, 22, 35, 255, 256, 32767, 32768, 65534, 65535];
    for &tile_x in samples.iter() {
        for &tile_y in samples.iter() {
            assert_eq!(TileId::pack(tile_x, tile_y).unpack(), (tile_x, tile_y));
        }
    }
}

#[test]
fn unpack_splits_the_key() {
    assert_eq!(TileId { packed: 0x0023_0016 }.unpack(), (35, 22));
    assert_eq!(TileId { packed: 0xffff_0000 }.unpack(), (65535, 0));
}

#[test]
fn keys_differ_for_different_tiles() {
    assert_ne!(TileId::pack(35, 22), TileId::pack(22, 35));
    assert_ne!(TileId::pack(35, 22), TileId::pack(35, 23));
}

#[test]
fn new_store_has_no_tile() {
    let store = TileStore::new(530);
    assert!(!store.has_tile(0, 0));
    assert!(!store.has_tile(35, 22));
    assert_eq!(store.map_id(), 530);
    assert_eq!(
        store.ensure_loaded(35, 22),
        TileRequest::Load { map_id: 530, tile_x: 35, tile_y: 22 }
    );
}

#[test]
fn registered_tile_is_resident_and_not_requested_again() {
    let mut store = TileStore::new(530);
    assert_eq!(
        store.finish_load(35, 22, TileLoadOutcome::Registered(77)),
        Ok(())
    );
    assert!(store.has_tile(35, 22));
    assert!(!store.has_tile(22, 35));
    assert_eq!(store.ensure_loaded(35, 22), TileRequest::Resident);
    // Other tiles come and go wrong; the first stays resident.
    assert_eq!(
        store.finish_load(35, 23, TileLoadOutcome::Registered(78)),
        Ok(())
    );
    assert_eq!(
        store.finish_load(36, 23, TileLoadOutcome::LoaderFailed),
        Err(DivertError::TileLoadFailure)
    );
    assert_eq!(store.ensure_loaded(35, 22), TileRequest::Resident);
    assert_eq!(store.ensure_loaded(35, 23), TileRequest::Resident);
    assert_eq!(
        store.ensure_loaded(36, 23),
        TileRequest::Load { map_id: 530, tile_x: 36, tile_y: 23 }
    );
}

#[test]
fn failed_load_leaves_the_tile_missing() {
    let mut store = TileStore::new(530);
    assert_eq!(
        store.finish_load(1, 2, TileLoadOutcome::LoaderFailed),
        Err(DivertError::TileLoadFailure)
    );
    assert!(!store.has_tile(1, 2));
    let refused = DtStatus::from_bits(DT_FAILURE | DT_ALREADY_OCCUPIED);
    assert_eq!(
        store.finish_load(1, 2, TileLoadOutcome::Rejected(refused)),
        Err(DivertError::TileRejected(refused))
    );
    assert!(!store.has_tile(1, 2));
}
