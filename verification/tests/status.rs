use divert::error::Primitive;
use divert::status::{
    DT_ALREADY_OCCUPIED, DT_FAILURE, DT_IN_PROGRESS, DT_PARTIAL_RESULT, DT_STRAIGHTPATH_END,
    DT_STRAIGHTPATH_OFFMESH_CONNECTION, DT_STRAIGHTPATH_START, DT_SUCCESS, DT_WRONG_MAGIC,
};
use divert::{DivertError, DtStatus, DtStraightPathFlags, QueryFilter, Scalar, Vector};

#[test]
fn test_query_filter() {
    let filter = QueryFilter::new();
    assert!(filter.is_ok());

    let mut filter = filter.unwrap();

    filter.set_include_flags(1);
    assert_eq!(filter.get_include_flags(), 1);

    filter.set_exclude_flags(1);
    assert_eq!(filter.get_exclude_flags(), 1);
}

#[test]
fn new_filter_includes_everything() {
    let filter = QueryFilter::new().unwrap();
    assert_eq!(filter.get_include_flags(), 0xffff);
    assert_eq!(filter.get_exclude_flags(), 0);
}

#[test]
fn filter_setters_leave_the_other_flags() {
    let mut filter = QueryFilter::new().unwrap();
    filter.set_include_flags(1 | 8 | 4 | 2);
    filter.set_exclude_flags(0x10);
    filter.set_include_flags(3);
    assert_eq!(filter.get_include_flags(), 3);
    assert_eq!(filter.get_exclude_flags(), 0x10);
}

#[test]
fn status_bits_are_told_apart() {
    assert_eq!(DT_FAILURE, 1 << 31);
    assert_eq!(DT_SUCCESS, 1 << 30);
    assert_eq!(DT_IN_PROGRESS, 1 << 29);
    let success = DtStatus::from_bits(DT_SUCCESS);
    assert!(success.is_success());
    assert!(!success.is_failed());
    assert!(!success.is_in_progress());
    let failed = DtStatus::from_bits(DT_FAILURE | DT_WRONG_MAGIC);
    assert!(failed.is_failed());
    assert!(!failed.is_success());
    assert_eq!(failed.bits(), 0x8000_0001);
    let running = DtStatus::from_bits(DT_IN_PROGRESS);
    assert!(running.is_in_progress());
    assert!(!running.is_failed());
    let nothing = DtStatus::from_bits(0);
    assert!(!nothing.is_success() && !nothing.is_failed() && !nothing.is_in_progress());
}

#[test]
fn status_contains_needs_every_bit() {
    let status = DtStatus::from_bits(DT_SUCCESS | DT_PARTIAL_RESULT);
    assert!(status.contains(DtStatus::from_bits(DT_PARTIAL_RESULT)));
    assert!(status.contains(DtStatus::from_bits(DT_SUCCESS | DT_PARTIAL_RESULT)));
    assert!(!status.contains(DtStatus::from_bits(DT_SUCCESS | DT_ALREADY_OCCUPIED)));
    assert!(status.contains(DtStatus::from_bits(0)));
}

#[test]
fn straight_path_flags() {
    assert_eq!(DT_STRAIGHTPATH_START, 0x01);
    assert_eq!(DT_STRAIGHTPATH_END, 0x02);
    assert_eq!(DT_STRAIGHTPATH_OFFMESH_CONNECTION, 0x03);
    let start = DtStraightPathFlags::from_bits(DT_STRAIGHTPATH_START);
    assert!(!start.is_end());
    assert!(!start.is_offmesh_connection());
    let end = DtStraightPathFlags::from_bits(DT_STRAIGHTPATH_END);
    assert!(end.is_end());
    assert!(!end.is_offmesh_connection());
    assert!(end.contains(DtStraightPathFlags::from_bits(DT_STRAIGHTPATH_END)));
    assert!(!end.contains(start));
    let offmesh = DtStraightPathFlags::from_bits(DT_STRAIGHTPATH_OFFMESH_CONNECTION);
    assert!(offmesh.is_offmesh_connection());
    assert!(offmesh.is_end());
    assert_eq!(offmesh.bits(), 3);
}

#[test]
fn failed_status_becomes_the_error_of_its_primitive() {
    let status = DtStatus::from_bits(DT_FAILURE | DT_ALREADY_OCCUPIED);
    assert_eq!(
        Primitive::GetPolyHeight.check(status),
        Err(DivertError::GetPolyHeightFailure(status))
    );
    assert_eq!(
        Primitive::FindNearestPoly.check(status),
        Err(DivertError::FindNearestPolyFailure(status))
    );
    assert_eq!(
        Primitive::ClosestPointOnPoly.check(status),
        Err(DivertError::ClosestPointOnPolyFailure(status))
    );
    assert_eq!(
        Primitive::ClosestPointOnPolyBoundary.check(status),
        Err(DivertError::ClosestPointOnPolyBoundaryFailure(status))
    );
    assert_eq!(
        Primitive::FindPath.check(status),
        Err(DivertError::FindPathFailure(status))
    );
    assert_eq!(
        Primitive::FindStraightPath.check(status),
        Err(DivertError::FindStraightPathFailure(status))
    );
    assert_eq!(
        Primitive::MoveAlongSurface.check(status),
        Err(DivertError::MoveAlongSurfaceFailure(status))
    );
    assert_eq!(
        Primitive::AddTile.check(status),
        Err(DivertError::TileRejected(status))
    );
    assert_eq!(
        Primitive::Other.check(status),
        Err(DivertError::Failure(status))
    );
}

#[test]
fn partial_result_is_no_failure() {
    let status = DtStatus::from_bits(DT_SUCCESS | DT_PARTIAL_RESULT);
    assert_eq!(Primitive::FindPath.check(status), Ok(()));
    assert_eq!(Primitive::Other.check(DtStatus::from_bits(0)), Ok(()));
}

#[test]
fn both_constructors_name_their_axes() {
    let x = Scalar::from_bits(1.0f32.to_bits());
    let y = Scalar::from_bits(2.0f32.to_bits());
    let z = Scalar::from_bits(3.0f32.to_bits());
    let caller = Vector::from_xyz(x, y, z);
    let engine = Vector::from_yzx(y, z, x);
    assert_eq!(caller, engine);
    assert_eq!(caller.x, x);
    assert_eq!(caller.y, y);
    assert_eq!(caller.z, z);
    assert_eq!(caller.to_xyz(), (x, y, z));
    assert_eq!(caller.to_yzx(), (y, z, x));
    assert_ne!(Vector::from_xyz(x, y, z), Vector::from_yzx(x, y, z));
}

#[test]
fn scalar_keeps_its_bits() {
    assert_eq!(Scalar::zero().to_bits(), 0.0f32.to_bits());
    assert_eq!(f32::from_bits(Scalar::from_bits(0x3f80_0000).to_bits()), 1.0);
}
