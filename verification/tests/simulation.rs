use rust_life::simulation::Simulation;

#[test]
fn test_advance_swaps_buffers() {
    let mut sim = Simulation::new(3, 3);
    // A recognizable pattern in the committed buffer...
    sim.current.mut_cell(0, 0).spawn();
    // ...and a marker in the scratch buffer.
    sim.next.mut_cell(2, 2).spawn();

    sim.advance();

    // The buffer previously bound as "next" now holds the freshly computed
    // generation (a lone cell dies, and the marker was overwritten, not kept).
    assert!(!sim.current.cell(0, 0).is_alive());
    assert!(!sim.current.cell(2, 2).is_alive());
    // The buffer previously bound as "current" is now bound as "next",
    // content and all: the roles swapped, nothing was copied back.
    assert!(sim.next.cell(0, 0).is_alive());
    assert!(!sim.next.cell(2, 2).is_alive());
}

#[test]
fn test_block_is_stable() {
    let mut sim = Simulation::new(3, 3);
    sim.current.mut_cell(0, 0).spawn();
    sim.current.mut_cell(1, 0).spawn();
    sim.current.mut_cell(0, 1).spawn();
    sim.current.mut_cell(1, 1).spawn();

    for _ in 0..5 {
        sim.advance();
        for y in 0..3u16 {
            for x in 0..3u16 {
                let expected: bool = x < 2 && y < 2;
                assert_eq!(sim.current.cell(x, y).is_alive(), expected);
            }
        }
    }
}

#[test]
fn test_blinker_oscillates() {
    let mut sim = Simulation::new(5, 5);
    sim.current.mut_cell(1, 2).spawn();
    sim.current.mut_cell(2, 2).spawn();
    sim.current.mut_cell(3, 2).spawn();

    sim.advance();

    // The horizontal bar flips to a vertical one...
    for y in 0..5u16 {
        for x in 0..5u16 {
            let expected: bool = x == 2 && (1..=3).contains(&y);
            assert_eq!(sim.current.cell(x, y).is_alive(), expected);
        }
    }

    sim.advance();

    // ...and back.
    for y in 0..5u16 {
        for x in 0..5u16 {
            let expected: bool = y == 2 && (1..=3).contains(&x);
            assert_eq!(sim.current.cell(x, y).is_alive(), expected);
        }
    }
}

#[test]
fn test_seed_from_fixed_source() {
    let mut sim = Simulation::new(3, 2);
    // Row-major draws: row y = 0 first, then row y = 1.
    let bits: Vec<bool> = vec![true, false, true, false, true, false];

    sim.seed(&bits);

    for y in 0..2u16 {
        for x in 0..3u16 {
            let expected: bool = bits[(y as usize) * 3 + (x as usize)];
            assert_eq!(sim.current.cell(x, y).is_alive(), expected);
        }
    }
    // Seeding is deterministic: the same source gives the same generation.
    let mut again = Simulation::new(3, 2);
    again.seed(&bits);
    assert_eq!(again.current, sim.current);
    // The scratch buffer is untouched by seeding.
    for y in 0..2u16 {
        for x in 0..3u16 {
            assert!(!sim.next.cell(x, y).is_alive());
        }
    }
}

#[test]
fn test_randomize_keeps_dimensions() {
    let mut sim = Simulation::new(6, 5);

    sim.randomize();

    assert_eq!(sim.current.width, 6);
    assert_eq!(sim.current.height, 5);
    assert_eq!(sim.current.cells.len(), 30);
    // The scratch buffer is untouched by seeding.
    for y in 0..5u16 {
        for x in 0..6u16 {
            assert!(!sim.next.cell(x, y).is_alive());
        }
    }
}
