use divert::{find_common, DivertError, PathCorridor, PolyRef};

fn corridor_of(polys: &[PolyRef], capacity: usize) -> PathCorridor {
    PathCorridor::from_polys(polys.to_vec(), capacity).expect("the polygons fit")
}

#[test]
fn find_common_returns_deepest_pair() {
    assert_eq!(find_common(&[1, 2, 3, 4], &[1, 9, 2]), Some((1, 2)));
    assert_eq!(find_common(&[1, 2, 3, 4], &[4]), Some((3, 0)));
    assert_eq!(find_common(&[7], &[7]), Some((0, 0)));
}

#[test]
fn find_common_prefers_the_later_path_index() {
    // 5 is later in the path than 3, though 3 is later in the trace.
    assert_eq!(find_common(&[3, 5], &[5, 3]), Some((1, 0)));
}

#[test]
fn find_common_prefers_the_later_trace_index_for_one_polygon() {
    assert_eq!(find_common(&[1, 2], &[2, 8, 2, 9]), Some((1, 2)));
    assert_eq!(find_common(&[2, 2, 2], &[2, 2]), Some((2, 1)));
}

#[test]
fn find_common_without_a_shared_polygon_is_none() {
    assert_eq!(find_common(&[1, 2, 3], &[4, 5]), None);
    assert_eq!(find_common(&[], &[4, 5]), None);
    assert_eq!(find_common(&[1], &[]), None);
    assert_eq!(find_common(&[], &[]), None);
}

#[test]
fn merge_puts_the_reversed_trace_in_front() {
    let mut corridor = corridor_of(&[1, 2, 3, 4], 8);
    assert_eq!(corridor.merge(&[1, 9, 2]), Ok(()));
    assert_eq!(corridor.polys(), &[2, 3, 4]);
    assert_eq!(corridor.capacity(), 8);
}

#[test]
fn merge_on_a_step_within_the_first_polygon_changes_nothing() {
    let mut corridor = corridor_of(&[10, 11, 12], 64);
    assert_eq!(corridor.merge(&[10]), Ok(()));
    assert_eq!(corridor.polys(), &[10, 11, 12]);
}

#[test]
fn merge_advances_along_the_corridor() {
    let mut corridor = corridor_of(&[10, 11, 12, 13], 64);
    assert_eq!(corridor.merge(&[10, 11, 12]), Ok(()));
    assert_eq!(corridor.polys(), &[12, 13]);
    assert_eq!(corridor.first(), Some(12));
    assert_eq!(corridor.last(), Some(13));
}

#[test]
fn merge_keeps_a_detour_in_front_of_the_match() {
    // The move left the corridor at 10 and wandered over 20 and 21.
    let mut corridor = corridor_of(&[10, 11, 12], 64);
    assert_eq!(corridor.merge(&[10, 20, 21]), Ok(()));
    assert_eq!(corridor.polys(), &[21, 20, 10, 11, 12]);
    assert_eq!(corridor.len(), 5);
}

#[test]
fn merge_clips_the_old_tail_at_the_capacity() {
    let mut corridor = corridor_of(&[10, 11, 12, 13], 4);
    assert_eq!(corridor.merge(&[10, 20, 21]), Ok(()));
    // Three fresh entries win; one of the three old ones still fits.
    assert_eq!(corridor.polys(), &[21, 20, 10, 11]);
    assert_eq!(corridor.len(), corridor.capacity());
}

#[test]
fn merge_with_a_trace_as_long_as_the_capacity_drops_the_old_tail() {
    let mut corridor = corridor_of(&[10, 11, 12], 3);
    assert_eq!(corridor.merge(&[10, 20, 21]), Ok(()));
    assert_eq!(corridor.polys(), &[21, 20, 10]);
}

#[test]
fn merge_at_the_last_polygon_keeps_only_the_trace() {
    let mut corridor = corridor_of(&[10, 11, 12], 64);
    assert_eq!(corridor.merge(&[11, 12]), Ok(()));
    assert_eq!(corridor.polys(), &[12]);
}

#[test]
fn merge_without_a_shared_polygon_fails_and_keeps_the_corridor() {
    let mut corridor = corridor_of(&[1, 2, 3], 8);
    assert_eq!(
        corridor.merge(&[4, 5]),
        Err(DivertError::CorridorMergeInvariantViolation)
    );
    assert_eq!(corridor.polys(), &[1, 2, 3]);
    assert_eq!(
        corridor.merge(&[]),
        Err(DivertError::CorridorMergeInvariantViolation)
    );
    assert_eq!(corridor.polys(), &[1, 2, 3]);
}

#[test]
fn merge_on_an_empty_corridor_fails() {
    let mut corridor = PathCorridor::new(8);
    assert!(corridor.is_empty());
    assert_eq!(
        corridor.merge(&[4]),
        Err(DivertError::CorridorMergeInvariantViolation)
    );
    assert!(corridor.is_empty());
    assert_eq!(corridor.first(), None);
    assert_eq!(corridor.last(), None);
}

#[test]
fn merge_result_never_exceeds_the_capacity() {
    for capacity in 3..8usize {
        for cut in 0..3usize {
            let mut corridor = corridor_of(&[1, 2, 3], capacity);
            let trace: Vec<PolyRef> = vec![1, 30, 31][..=cut].to_vec();
            assert_eq!(corridor.merge(&trace), Ok(()));
            assert!(corridor.len() <= capacity);
            assert!(corridor.len() >= 1);
            assert_eq!(corridor.first(), trace.last().copied());
        }
    }
}

#[test]
fn from_polys_refuses_more_than_the_capacity() {
    assert!(PathCorridor::from_polys(vec![1, 2, 3], 2).is_none());
    assert!(PathCorridor::from_polys(vec![1, 2], 2).is_some());
    assert!(PathCorridor::from_polys(vec![], 0).is_some());
}

#[test]
fn admits_tells_whether_the_trace_fits() {
    let corridor = corridor_of(&[1, 2], 2);
    // Two entries go in front.
    assert!(corridor.admits(&[9, 1, 3]));
    // Three entries would go in front of a corridor of two.
    assert!(!corridor.admits(&[1, 3, 4]));
    // The match is with the later polygon of the corridor.
    assert!(corridor.admits(&[1, 3, 4, 2]));
    // No shared polygon: nothing goes in front.
    assert!(corridor.admits(&[5, 6, 7, 8]));
    assert!(corridor.admits(&[]));
}
