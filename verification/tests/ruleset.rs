use rust_life::generation::Generation;
use rust_life::ruleset::Ruleset;

#[test]
fn test_fix_coord() {
    let values: Vec<(i16, u16, u16, u16)> = vec![
        (1, 0, 2, 1),
        (0, 0, 2, 0),
        (2, 0, 2, 2),
        (-1, 0, 2, 2),
        (3, 0, 2, 0),
    ];

    for (c, l, u, e) in &values {
        assert_eq!(Ruleset::fix_coord(*c, *l, *u), *e);
    }
}

#[test]
fn test_alive_neighbors() {
    let mut gen = Generation::new(3, 3);

    gen.mut_cell(1, 1).spawn();
    gen.mut_cell(1, 2).spawn();
    gen.mut_cell(2, 2).spawn();

    assert_eq!(Ruleset::alive_neighbors(1, 1, &gen), 2);
    assert_eq!(Ruleset::alive_neighbors(0, 0, &gen), 3);

    gen.mut_cell(1, 2).kill();
    gen.mut_cell(2, 2).kill();

    assert_eq!(Ruleset::alive_neighbors(1, 1, &gen), 0);
    assert_eq!(Ruleset::alive_neighbors(2, 2, &gen), 1);
}

#[test]
fn test_should_live() {
    let mut gen = Generation::new(5, 5);

    gen.mut_cell(1, 1).spawn();
    gen.mut_cell(1, 2).spawn();
    gen.mut_cell(2, 2).spawn();

    assert_eq!(Ruleset::should_live(0, 0, &gen), false);
    assert_eq!(Ruleset::should_live(2, 2, &gen), true);
    assert_eq!(Ruleset::should_live(1, 2, &gen), true);
}

#[test]
fn test_neighbors_exclude_center() {
    let mut gen = Generation::new(3, 3);
    gen.mut_cell(1, 1).spawn();

    // The only live cell is the center itself: it never counts itself.
    assert_eq!(Ruleset::alive_neighbors(1, 1, &gen), 0);
    // A query at an adjacent coordinate does see it, exactly once.
    assert_eq!(Ruleset::alive_neighbors(0, 0, &gen), 1);
    assert_eq!(Ruleset::alive_neighbors(2, 1, &gen), 1);
}

#[test]
fn test_neighbors_on_one_by_one_grid() {
    let mut gen = Generation::new(1, 1);
    gen.mut_cell(0, 0).spawn();

    // Every offset wraps back onto the center, so none of them counts.
    assert_eq!(Ruleset::alive_neighbors(0, 0, &gen), 0);
}

#[test]
fn test_neighbors_on_two_by_two_grid() {
    let mut gen = Generation::new(2, 2);
    for y in 0..2u16 {
        for x in 0..2u16 {
            gen.mut_cell(x, y).spawn();
        }
    }

    // On a 2-wide torus both horizontal offsets wrap to the same column (and
    // both vertical ones to the same row), so the three other cells are each
    // reached from more than one offset: 8 of the 9 offsets miss the center.
    assert_eq!(Ruleset::alive_neighbors(0, 0, &gen), 8);
}
