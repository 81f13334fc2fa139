use fishtank::sim::spatial_hash::SpatialHash;

fn key_of(x: f64, y: f64, cell: f64) -> (i64, i64) {
    ((x / cell).floor() as i64, (y / cell).floor() as i64)
}

#[test]
fn hash_groups_particles_by_cell() {
    let keys = vec![key_of(0.1, 0.1, 2.0), key_of(0.2, 0.1, 2.0), key_of(3.9, 0.1, 2.0)];
    assert_eq!(keys, vec![(0, 0), (0, 0), (1, 0)]);
    let hash = SpatialHash::build(keys);
    assert_eq!(hash.len(), 3);
    assert_eq!(hash.key(2), (1, 0));
    assert_eq!(hash.get((0, 0)), Some(&vec![0, 1]));
    assert_eq!(hash.get((1, 0)), Some(&vec![2]));
    assert_eq!(hash.get((2, 0)), None);
    assert_eq!(hash.get((0, 1)), None);
}

#[test]
fn hash_is_deterministic() {
    let keys = vec![(3, -1), (0, 0), (3, -1), (-2, 5), (0, 0), (3, -1)];
    let a = SpatialHash::build(keys.clone());
    let b = SpatialHash::build(keys);
    for x in -3..5 {
        for y in -3..7 {
            assert_eq!(a.get((x, y)), b.get((x, y)));
        }
    }
    assert_eq!(a.get((3, -1)), Some(&vec![0, 2, 5]));
}

#[test]
fn neighbours_follow_traversal_order() {
    let keys = vec![(1, 1), (0, 0), (2, 2), (1, 0), (0, 1), (5, 5), (1, 2), (2, 0)];
    let hash = SpatialHash::build(keys);
    // columns 0, 1, 2 in turn; rows 0, 1, 2 within each column
    assert_eq!(hash.neighbours((1, 1)), vec![1, 4, 3, 0, 6, 7, 2]);
    assert_eq!(hash.neighbours((5, 5)), vec![5]);
    assert_eq!(hash.neighbours((9, 9)), Vec::<usize>::new());
}

#[test]
fn neighbours_at_the_edge_of_the_key_range() {
    let keys = vec![(i64::MAX, i64::MIN), (i64::MAX - 1, i64::MIN + 1), (i64::MIN, i64::MIN)];
    let hash = SpatialHash::build(keys);
    assert_eq!(hash.neighbours((i64::MAX, i64::MIN)), vec![1, 0]);
    assert_eq!(hash.get((i64::MIN, i64::MIN)), Some(&vec![2]));
    assert_eq!(hash.get((i64::MIN, i64::MAX)), None);
}

#[test]
fn empty_hash() {
    let hash = SpatialHash::build(Vec::new());
    assert_eq!(hash.len(), 0);
    assert_eq!(hash.get((0, 0)), None);
    assert!(hash.neighbours((0, 0)).is_empty());
}
