//! Neighbor, rotation and pentagon-face topology of the base cells.

use icogrid::BaseCell;
use icogrid::Direction;
use icogrid::Face;

const K_AXIS: u8 = 1;

#[test]
fn center_direction_is_the_cell_itself() {
    for cell in BaseCell::iter() {
        let center = Direction::new_unchecked(0);
        assert_eq!(cell.neighbor(center), Some(cell));
        assert_eq!(cell.neighbor_rotation(center), 0);
    }
}

#[test]
fn pentagons_miss_exactly_the_k_direction() {
    for cell in BaseCell::iter() {
        let mut missing: Vec<u8> = Vec::new();
        for d in 0..7 {
            if cell.neighbor(Direction::new_unchecked(d)).is_none() {
                missing.push(d);
            }
        }
        if cell.is_pentagon() {
            assert_eq!(missing, vec![K_AXIS]);
        } else {
            assert_eq!(missing, Vec::<u8>::new());
        }
    }
}

#[test]
fn known_neighbors_of_cell_0() {
    let origin = BaseCell::try_from(0).unwrap();
    let expected: [u8; 7] = [0, 1, 5, 2, 4, 3, 8];
    for d in 0..7 {
        let neighbor = origin.neighbor(Direction::new_unchecked(d)).unwrap();
        assert_eq!(neighbor.value(), expected[d as usize]);
    }
}

#[test]
fn known_neighbor_rotations_of_cell_0() {
    let origin = BaseCell::try_from(0).unwrap();
    let expected: [u8; 7] = [0, 5, 0, 0, 1, 5, 1];
    for d in 0..7 {
        let rotation = origin.neighbor_rotation(Direction::new_unchecked(d));
        assert_eq!(rotation, expected[d as usize]);
    }
}

#[test]
fn neighbor_relation_is_symmetric() {
    for cell in BaseCell::iter() {
        for d in 0..7 {
            let Some(neighbor) = cell.neighbor(Direction::new_unchecked(d)) else {
                continue;
            };
            let back = neighbor.direction(cell);
            assert!(back.is_some(), "no direction back from {} to {}",
                neighbor.value(), cell.value());
            let back_neighbor = neighbor.neighbor(back.unwrap()).unwrap();
            assert_eq!(back_neighbor, cell);
        }
    }
}

#[test]
fn hexagon_round_trip_rotations_cancel() {
    for cell in BaseCell::iter() {
        if cell.is_pentagon() {
            continue;
        }
        for d in 0..7 {
            let direction = Direction::new_unchecked(d);
            let neighbor = cell.neighbor(direction).unwrap();
            if neighbor.is_pentagon() {
                continue;
            }
            let back = neighbor.direction(cell).unwrap();
            let total = cell.neighbor_rotation(direction) + neighbor.neighbor_rotation(back);
            assert_eq!(total % 6, 0, "net rotation from {} via {}", cell.value(), d);
        }
    }
}

#[test]
fn direction_finds_each_neighbor() {
    for cell in BaseCell::iter() {
        for d in 1..7 {
            let Some(neighbor) = cell.neighbor(Direction::new_unchecked(d)) else {
                continue;
            };
            let found = cell.direction(neighbor).unwrap();
            assert_eq!(found.value(), d);
        }
    }
}

#[test]
fn direction_rejects_non_neighbors() {
    let origin = BaseCell::try_from(0).unwrap();
    let far = BaseCell::try_from(100).unwrap();
    assert!(origin.direction(far).is_none());
}

#[test]
fn every_cell_is_present_on_its_home_face() {
    for cell in BaseCell::iter() {
        let home = cell.home_embedding().face;
        assert!(cell.has_presence(home));
        assert_eq!(cell.rotation_count(home), 0);
    }
}

#[test]
fn rotation_counts_stay_in_range() {
    for cell in BaseCell::iter() {
        let mut present: u32 = 0;
        for face in 0..20 {
            let face = Face::new_unchecked(face);
            if cell.has_presence(face) {
                present += 1;
                assert!(cell.rotation_count(face) <= 5);
            }
        }
        assert!(present >= 1);
    }
}

#[test]
fn absent_faces_of_a_known_cell() {
    let origin = BaseCell::try_from(0).unwrap();
    for face in 0..20 {
        let expected = face <= 2;
        assert_eq!(origin.has_presence(Face::new_unchecked(face)), expected);
    }
}

#[test]
fn pentagon_direction_faces_are_five_distinct_faces() {
    for cell in BaseCell::iter() {
        if !cell.is_pentagon() {
            continue;
        }
        let faces = cell.pentagon_direction_faces();
        assert_eq!(faces.len(), 5);
        for a in 0..5 {
            assert!(faces[a].value() < 20);
            for b in (a + 1)..5 {
                assert_ne!(faces[a], faces[b]);
            }
        }
    }
}

#[test]
fn pentagon_direction_faces_of_known_pentagons() {
    let first = BaseCell::try_from(4).unwrap().pentagon_direction_faces();
    let values: Vec<u8> = first.iter().map(|f| f.value()).collect();
    assert_eq!(values, vec![4, 0, 2, 1, 3]);

    let last = BaseCell::try_from(117).unwrap().pentagon_direction_faces();
    let values: Vec<u8> = last.iter().map(|f| f.value()).collect();
    assert_eq!(values, vec![15, 19, 17, 18, 16]);
}

#[test]
fn polar_pentagon_neighbors_point_inward() {
    for cell in BaseCell::iter() {
        let mut all_inward = true;
        for d in 1..7 {
            let Some(neighbor) = cell.neighbor(Direction::new_unchecked(d)) else {
                continue;
            };
            let back = neighbor.direction(cell).unwrap();
            if back.value() != 4 {
                all_inward = false;
            }
        }
        assert_eq!(all_inward, cell.is_polar_pentagon());
    }
}

#[test]
fn polar_pentagon_scenario() {
    let polar = BaseCell::try_from(4).unwrap();
    assert!(polar.is_pentagon());
    assert!(polar.is_polar_pentagon());
    let home = polar.home_embedding();
    assert_eq!(home.face.value(), 0);
    assert_eq!((home.coord.i, home.coord.j, home.coord.k), (2, 0, 0));

    let hexagon = BaseCell::try_from(8).unwrap();
    assert!(!hexagon.is_pentagon());
    assert!(!hexagon.is_polar_pentagon());
    for d in 1..7 {
        assert!(hexagon.neighbor(Direction::new_unchecked(d)).is_some());
    }
}
