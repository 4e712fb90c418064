//! Construction, classification and metadata behaviour of base cells.

use icogrid::BaseCell;
use icogrid::Face;

const PENTAGONS: [u8; 12] = [4, 14, 24, 38, 49, 58, 63, 72, 83, 97, 107, 117];

#[test]
fn count_is_122() {
    assert_eq!(BaseCell::count(), 122);
}

#[test]
fn iter_yields_all_cells_in_order() {
    let cells = BaseCell::iter();
    assert_eq!(cells.len(), 122);
    for (i, cell) in cells.iter().enumerate() {
        assert_eq!(cell.value() as usize, i);
    }
}

#[test]
fn iter_is_restartable() {
    let first = BaseCell::iter();
    let second = BaseCell::iter();
    assert_eq!(first, second);
}

#[test]
fn iter_yields_distinct_cells() {
    let cells = BaseCell::iter();
    for a in 0..cells.len() {
        for b in (a + 1)..cells.len() {
            assert_ne!(cells[a], cells[b]);
        }
    }
}

#[test]
fn exactly_twelve_pentagons() {
    let pentagons: Vec<BaseCell> =
        BaseCell::iter().into_iter().filter(|cell| cell.is_pentagon()).collect();
    assert_eq!(pentagons.len(), 12);
    for (pentagon, expected) in pentagons.iter().zip(PENTAGONS.iter()) {
        assert_eq!(pentagon.value(), *expected);
    }
}

#[test]
fn try_from_accepts_the_largest_cell() {
    let cell = BaseCell::try_from(121).unwrap();
    assert_eq!(cell.value(), 121);
}

#[test]
fn try_from_rejects_out_of_range_values() {
    let error = BaseCell::try_from(122).unwrap_err();
    assert_eq!(error.value, 122);
    assert_eq!(error.reason, "out of range");
    assert!(BaseCell::try_from(255).is_err());
}

#[test]
fn polar_pentagons_are_exactly_4_and_117() {
    for cell in BaseCell::iter() {
        let expected = cell.value() == 4 || cell.value() == 117;
        assert_eq!(cell.is_polar_pentagon(), expected);
    }
}

#[test]
fn polar_pentagons_are_pentagons() {
    assert!(BaseCell::try_from(4).unwrap().is_pentagon());
    assert!(BaseCell::try_from(117).unwrap().is_pentagon());
}

#[test]
fn known_cells_classify_correctly() {
    assert!(BaseCell::try_from(4).unwrap().is_pentagon());
    assert!(!BaseCell::try_from(8).unwrap().is_pentagon());
    assert!(!BaseCell::try_from(0).unwrap().is_pentagon());
    assert!(BaseCell::try_from(117).unwrap().is_pentagon());
}

#[test]
fn home_embedding_of_known_cells() {
    let first = BaseCell::try_from(0).unwrap().home_embedding();
    assert_eq!(first.face.value(), 1);
    assert_eq!((first.coord.i, first.coord.j, first.coord.k), (1, 0, 0));

    let polar = BaseCell::try_from(4).unwrap().home_embedding();
    assert_eq!(polar.face.value(), 0);
    assert_eq!((polar.coord.i, polar.coord.j, polar.coord.k), (2, 0, 0));

    let last = BaseCell::try_from(121).unwrap().home_embedding();
    assert_eq!(last.face.value(), 18);
    assert_eq!((last.coord.i, last.coord.j, last.coord.k), (1, 0, 0));
}

#[test]
fn metadata_matches_home_embedding() {
    for cell in BaseCell::iter() {
        let metadata = cell.metadata();
        let home = cell.home_embedding();
        assert_eq!(metadata.home, home.face);
        assert_eq!(metadata.coord, home.coord);
    }
}

#[test]
fn cw_offset_pair_only_on_distorted_pentagons() {
    for cell in BaseCell::iter() {
        let metadata = cell.metadata();
        if metadata.cw_offset_pent.is_some() {
            assert!(cell.is_pentagon());
            assert!(!cell.is_polar_pentagon());
        }
    }
}

#[test]
fn cw_offset_faces_of_a_distorted_pentagon() {
    let pentagon = BaseCell::try_from(14).unwrap();
    let (first, second) = pentagon.metadata().cw_offset_pent.unwrap();
    assert_eq!(first.value(), 2);
    assert_eq!(second.value(), 6);
    assert!(pentagon.is_cw_offset(Face::new_unchecked(2)));
    assert!(pentagon.is_cw_offset(Face::new_unchecked(6)));
    assert!(!pentagon.is_cw_offset(Face::new_unchecked(11)));
}

#[test]
fn polar_pentagons_have_no_cw_offset_pair() {
    assert!(BaseCell::try_from(4).unwrap().metadata().cw_offset_pent.is_none());
    assert!(BaseCell::try_from(117).unwrap().metadata().cw_offset_pent.is_none());
}

#[test]
fn hexagons_never_report_a_cw_offset() {
    let hexagon = BaseCell::try_from(8).unwrap();
    for face in 0..20 {
        assert!(!hexagon.is_cw_offset(Face::new_unchecked(face)));
    }
}
