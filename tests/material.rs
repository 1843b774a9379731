use interlumen::material::{checker_tile, CheckerTile};

#[test]
fn checker_origin_is_first() {
    assert_eq!(checker_tile(0, 0), CheckerTile::First);
}

#[test]
fn checker_one_step_is_second() {
    assert_eq!(checker_tile(1, 0), CheckerTile::Second);
    assert_eq!(checker_tile(0, 1), CheckerTile::Second);
}

#[test]
fn checker_diagonal_is_first() {
    assert_eq!(checker_tile(1, 1), CheckerTile::First);
}

#[test]
fn checker_negative_cells() {
    assert_eq!(checker_tile(-1, 0), CheckerTile::Second);
    assert_eq!(checker_tile(-1, 1), CheckerTile::First);
    assert_eq!(checker_tile(-1, -1), CheckerTile::First);
    assert_eq!(checker_tile(-3, 0), CheckerTile::Second);
}

#[test]
fn checker_extreme_cells() {
    assert_eq!(checker_tile(i64::MAX, i64::MAX), CheckerTile::First);
    assert_eq!(checker_tile(i64::MIN, i64::MAX), CheckerTile::Second);
}
