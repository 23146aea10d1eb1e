use relish::{CellularAutomaton, ConwayCellularAutomaton, ConwayRule, Rule2d};

#[test]
fn test_simple_static_block() {
    let mut world = vec![vec![false; 4]; 4];

    world[1][1] = true;
    world[1][2] = true;
    world[2][1] = true;
    world[2][2] = true;

    let next_world = world.clone();

    let mut ca = ConwayCellularAutomaton(world, false).expect("Construction failed");

    ca.step();
    assert_eq!(ca.world(), next_world);

    ca.step();
    assert_eq!(ca.world(), next_world);

    ca.step();
    assert_eq!(ca.world(), next_world);
}

#[test]
fn test_simple_static_tub_whole() {
    let mut world = vec![vec![false; 5]; 5];

    world[1][2] = true;
    world[2][1] = true;
    world[2][3] = true;
    world[3][2] = true;

    let next_world = world.clone();

    let mut ca = ConwayCellularAutomaton(world, false).expect("Construction failed");

    ca.step();
    assert_eq!(ca.world(), next_world);

    ca.step();
    assert_eq!(ca.world(), next_world);

    ca.step();
    assert_eq!(ca.world(), next_world);
}

#[test]
fn test_simple_static_tub_oob() {
    let mut world = vec![vec![false; 3]; 3];

    world[0][1] = true;
    world[1][0] = true;
    world[1][2] = true;
    world[2][1] = true;

    let next_world = world.clone();

    let mut ca = ConwayCellularAutomaton(world, false).expect("Construction failed");

    ca.step();
    assert_eq!(ca.world(), next_world);

    ca.step();
    assert_eq!(ca.world(), next_world);

    ca.step();
    assert_eq!(ca.world(), next_world);
}

#[test]
fn test_simple_blinker() {
    let mut world = vec![vec![false; 3]; 3];

    world[0][1] = true;
    world[1][1] = true;
    world[2][1] = true;

    let orig_world = world.clone();

    let mut ca = ConwayCellularAutomaton(world, false).expect("Construction failed");

    let mut next_world = vec![vec![false; 3]; 3];

    next_world[1][0] = true;
    next_world[1][1] = true;
    next_world[1][2] = true;

    ca.step();
    assert_eq!(ca.world(), next_world);

    ca.step();
    assert_eq!(ca.world(), orig_world);

    ca.step();
    assert_eq!(ca.world(), next_world);
}

#[test]
fn test_wrapping_glider() {
    let mut world = vec![vec![false; 10]; 10];

    world[2][3] = true;
    world[2][6] = true;
    world[3][2] = true;
    world[4][2] = true;
    world[4][6] = true;
    world[5][2] = true;
    world[5][3] = true;
    world[5][4] = true;
    world[5][5] = true;

    let orig_world = world.clone();

    let mut ca = ConwayCellularAutomaton(world, true).expect("Construction failed");

    let mut next_world = vec![vec![false; 10]; 10];

    next_world[3][2] = true;
    next_world[3][3] = true;
    next_world[4][1] = true;
    next_world[4][2] = true;
    next_world[4][4] = true;
    next_world[4][5] = true;
    next_world[5][2] = true;
    next_world[5][3] = true;
    next_world[5][4] = true;
    next_world[5][5] = true;
    next_world[6][3] = true;
    next_world[6][4] = true;

    ca.step();
    assert_eq!(ca.world(), next_world);

    next_world = vec![vec![false; 10]; 10];

    next_world[3][1] = true;
    next_world[3][2] = true;
    next_world[3][3] = true;
    next_world[3][4] = true;
    next_world[4][1] = true;
    next_world[4][5] = true;
    next_world[5][1] = true;
    next_world[6][2] = true;
    next_world[6][5] = true;

    ca.step();
    assert_eq!(ca.world(), next_world);

    next_world = vec![vec![false; 10]; 10];

    next_world[2][2] = true;
    next_world[2][3] = true;
    next_world[3][1] = true;
    next_world[3][2] = true;
    next_world[3][3] = true;
    next_world[3][4] = true;
    next_world[4][0] = true;
    next_world[4][1] = true;
    next_world[4][3] = true;
    next_world[4][4] = true;
    next_world[5][1] = true;
    next_world[5][2] = true;

    ca.step();
    assert_eq!(ca.world(), next_world);

    for _ in 0..17 {
        ca.step();
    }

    assert_eq!(ca.age(), 20);
    assert_eq!(ca.world(), orig_world);
}

#[test]
fn conway_blinker_has_period_two() {
    let mut world = vec![vec![false; 5]; 5];
    world[2][1] = true;
    world[2][2] = true;
    world[2][3] = true;
    let orig_world = world.clone();
    let mut ca = ConwayCellularAutomaton(world, false).expect("Construction failed");
    ca.step();
    assert_ne!(ca.world(), orig_world);
    ca.step();
    assert_eq!(ca.world(), orig_world);
    assert_eq!(ca.age(), 2);
}

#[test]
fn conway_wrapping_reaches_across_edges() {
    // A blinker along the left edge: wrapped, the cells in the last column
    // count as its neighbours; unwrapped, they do not.
    let mut world = vec![vec![false; 5]; 5];
    world[1][0] = true;
    world[2][0] = true;
    world[3][0] = true;

    let mut flat = ConwayCellularAutomaton(world.clone(), false).expect("Construction failed");
    flat.step();
    let mut expected_flat = vec![vec![false; 5]; 5];
    expected_flat[2][0] = true;
    expected_flat[2][1] = true;
    assert_eq!(flat.world(), expected_flat);

    let mut torus = ConwayCellularAutomaton(world, true).expect("Construction failed");
    torus.step();
    let mut expected_torus = vec![vec![false; 5]; 5];
    expected_torus[2][4] = true;
    expected_torus[2][0] = true;
    expected_torus[2][1] = true;
    assert_eq!(torus.world(), expected_torus);
}

#[test]
fn conway_accepts_small_grids_and_rejects_ragged_or_empty() {
    assert!(ConwayCellularAutomaton(vec![vec![false; 2]; 3], false).is_ok());
    assert!(ConwayCellularAutomaton(vec![vec![false; 3]; 2], true).is_ok());
    let ragged = vec![vec![false; 3], vec![false; 4], vec![false; 3]];
    assert!(ConwayCellularAutomaton(ragged, false).is_err());
    let empty: Vec<Vec<bool>> = vec![];
    assert!(ConwayCellularAutomaton(empty, true).is_err());
    assert!(ConwayCellularAutomaton(vec![vec![]], true).is_err());
    let ca = ConwayCellularAutomaton(vec![vec![false; 3]; 3], true).expect("Construction failed");
    assert_eq!(ca.size(), vec![3, 3]);
}

#[test]
fn conway_single_cell_and_narrow_grids() {
    // On a 1x1 torus every neighbour is the cell itself: eight live
    // neighbours, so a live cell dies.
    let mut one = ConwayCellularAutomaton(vec![vec![true]], true).expect("Construction failed");
    one.step();
    assert_eq!(one.world(), vec![vec![false]]);

    // Without wrapping a lone cell has no live neighbours.
    let mut lone = ConwayCellularAutomaton(vec![vec![true]], false).expect("Construction failed");
    lone.step();
    assert_eq!(lone.world(), vec![vec![false]]);

    // A 2x2 block on a 2x2 grid is still.
    let mut block = ConwayCellularAutomaton(vec![vec![true; 2]; 2], false).expect("Construction failed");
    block.step();
    assert_eq!(block.world(), vec![vec![true; 2]; 2]);
    assert_eq!(block.size(), vec![2, 2]);

    // A row of three on a 1x3 strip: the middle keeps two neighbours and
    // survives, the ends have one and die.
    let mut strip = ConwayCellularAutomaton(vec![vec![true; 3]], false).expect("Construction failed");
    strip.step();
    assert_eq!(strip.world(), vec![vec![false, true, false]]);
}

#[test]
fn conway_narrow_grid_windows() {
    let world = vec![vec![true, false]];
    match (ConwayRule { wrapping: true }).neighbors(&world, 0, 0) {
        relish::Neighbors2d::Neighborhood(w) => {
            assert_eq!(w, [[false, true, false], [false, true, false], [false, true, false]])
        }
        relish::Neighbors2d::Edge => panic!("no window"),
    }
    match (ConwayRule { wrapping: false }).neighbors(&world, 0, 1) {
        relish::Neighbors2d::Neighborhood(w) => {
            assert_eq!(w, [[false, false, false], [true, false, false], [false, false, false]])
        }
        relish::Neighbors2d::Edge => panic!("no window"),
    }
}

#[test]
fn conway_evolve_counts_eight_neighbours() {
    let rule = ConwayRule { wrapping: false };
    let three = [[true, true, false], [false, false, false], [false, false, true]];
    assert!(rule.evolve(three));
    let two_dead = [[true, true, false], [false, false, false], [false, false, false]];
    assert!(!rule.evolve(two_dead));
    let two_alive = [[true, true, false], [false, true, false], [false, false, false]];
    assert!(rule.evolve(two_alive));
    let four_alive = [[true, true, true], [false, true, false], [false, false, true]];
    assert!(!rule.evolve(four_alive));
}

#[test]
fn conway_neighbors_substitute_or_wrap() {
    let world = vec![
        vec![true, false, false],
        vec![false, false, false],
        vec![false, false, true],
    ];
    let flat = ConwayRule { wrapping: false }.neighbors(&world, 0, 0);
    let torus = ConwayRule { wrapping: true }.neighbors(&world, 0, 0);
    match flat {
        relish::Neighbors2d::Neighborhood(w) => {
            assert_eq!(w, [[false, false, false], [false, true, false], [false, false, false]])
        }
        relish::Neighbors2d::Edge => panic!("no window"),
    }
    match torus {
        relish::Neighbors2d::Neighborhood(w) => {
            assert_eq!(w, [[true, false, false], [false, true, false], [false, false, false]])
        }
        relish::Neighbors2d::Edge => panic!("no window"),
    }
}
