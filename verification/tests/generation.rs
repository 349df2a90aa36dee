use rust_life::generation::Generation;

#[test]
fn test_new_generation() {
    let width: u16 = 42;
    let height: u16 = 13;
    let size: usize = (width as usize) * (height as usize);

    let expected = Generation {
        width,
        height,
        cells: vec![Default::default(); size],
    };

    let generation = Generation::new(width, height);

    assert_eq!(generation, expected);
}

#[test]
fn test_new_generation_all_dead() {
    let width: u16 = 5;
    let height: u16 = 4;

    let generation = Generation::new(width, height);

    assert_eq!(generation.cells.len(), 20);
    for y in 0..height {
        for x in 0..width {
            assert!(!generation.cell(x, y).is_alive());
        }
    }
}

#[test]
fn test_spawn_kill_visible_through_cell() {
    let mut generation = Generation::new(4, 3);

    generation.mut_cell(2, 1).spawn();
    assert!(generation.cell(2, 1).is_alive());

    generation.mut_cell(2, 1).kill();
    assert!(!generation.cell(2, 1).is_alive());
}
