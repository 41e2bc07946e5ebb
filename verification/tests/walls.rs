use dungeon_of_madness::walls::force_code;
use dungeon_of_madness::walls::generate;
use dungeon_of_madness::walls::Direction;
use dungeon_of_madness::walls::NeighborCodes;
use tinyrand::Seeded;
use tinyrand::StdRand;

const NORTH: u8 = 0x1;
const EAST: u8 = 0x2;
const SOUTH: u8 = 0x4;
const WEST: u8 = 0x8;

fn no_neighbors() -> NeighborCodes {
    NeighborCodes { north: None, east: None, south: None, west: None }
}

#[test]
fn force_code_without_neighbors_is_the_draw() {
    for draw in 0u8..15 {
        assert_eq!(force_code(draw, no_neighbors()), draw);
    }
}

#[test]
fn force_code_open_neighbor_clears_the_shared_bit() {
    // North neighbor open toward us (its south bit clear): our north bit is
    // cleared whatever the draw held there.
    let nbrs = NeighborCodes { north: Some(0), east: None, south: None, west: None };
    for draw in 0u8..15 {
        let code = force_code(draw, nbrs);
        assert_eq!(code & NORTH, 0);
        // Other bits keep the draw.
        assert_eq!(code & (EAST | SOUTH | WEST), draw & (EAST | SOUTH | WEST));
    }
}

#[test]
fn force_code_walled_neighbor_sets_the_shared_bit() {
    // East neighbor walled toward us (its west bit set).
    let nbrs = NeighborCodes { north: None, east: Some(WEST), south: None, west: None };
    for draw in 0u8..15 {
        let code = force_code(draw, nbrs);
        assert_ne!(code & EAST, 0);
        assert_eq!(code & (NORTH | SOUTH | WEST), draw & (NORTH | SOUTH | WEST));
    }
}

#[test]
fn force_code_agrees_with_every_known_neighbor() {
    // Every combination of known/unknown neighbors, a few codes each: the
    // shared-edge bits agree, open with open and wall with wall.
    let samples: [u8; 4] = [0, 5, 10, 15];
    for mask in 0u8..16 {
        for &nn in &samples {
            for &ee in &samples {
                for &ss in &samples {
                    for &ww in &samples {
                        let nbrs = NeighborCodes {
                            north: if mask & 1 != 0 { Some(nn) } else { None },
                            east: if mask & 2 != 0 { Some(ee) } else { None },
                            south: if mask & 4 != 0 { Some(ss) } else { None },
                            west: if mask & 8 != 0 { Some(ww) } else { None },
                        };
                        for draw in [0u8, 6, 14] {
                            let code = force_code(draw, nbrs);
                            if let Some(v) = nbrs.north {
                                assert_eq!(code & NORTH != 0, v & SOUTH != 0);
                            }
                            if let Some(v) = nbrs.east {
                                assert_eq!(code & EAST != 0, v & WEST != 0);
                            }
                            if let Some(v) = nbrs.south {
                                assert_eq!(code & SOUTH != 0, v & NORTH != 0);
                            }
                            if let Some(v) = nbrs.west {
                                assert_eq!(code & WEST != 0, v & EAST != 0);
                            }
                        }
                    }
                }
            }
        }
    }
}

#[test]
fn force_code_can_be_forced_fully_walled() {
    // All four neighbors walled toward the cell: the result is 15 whatever
    // the draw — the input the streaming controller reports as fatal.
    let nbrs = NeighborCodes {
        north: Some(SOUTH),
        east: Some(WEST),
        south: Some(NORTH),
        west: Some(EAST),
    };
    for draw in 0u8..15 {
        assert_eq!(force_code(draw, nbrs), 15);
    }
}

#[test]
fn generate_without_neighbors_stays_in_range() {
    // The random draw never leaves [0, 14] with no known neighbor; over many
    // draws the whole range is hit (the draw is uniform over [0, 14]).
    let mut rng = StdRand::seed(42);
    let mut seen = [false; 15];
    for _ in 0..2000 {
        let code = generate(&mut rng, no_neighbors());
        assert!(code <= 14);
        seen[code as usize] = true;
    }
    assert!(seen.iter().all(|&s| s));
}

#[test]
fn generate_open_neighbor_forces_open_for_every_draw() {
    // Whatever the rng produces, a neighbor open toward us pins our bit.
    let mut rng = StdRand::seed(7);
    let nbrs = NeighborCodes { north: Some(0), east: None, south: None, west: None };
    for _ in 0..200 {
        let code = generate(&mut rng, nbrs);
        assert_eq!(code & NORTH, 0);
        assert!(code <= 14);
    }
}

#[test]
fn generate_is_deterministic_per_seed() {
    let mut a = StdRand::seed(99);
    let mut b = StdRand::seed(99);
    for _ in 0..50 {
        assert_eq!(generate(&mut a, no_neighbors()), generate(&mut b, no_neighbors()));
    }
}

#[test]
fn direction_masks_and_opposites() {
    assert_eq!(Direction::North.mask(), NORTH);
    assert_eq!(Direction::East.mask(), EAST);
    assert_eq!(Direction::South.mask(), SOUTH);
    assert_eq!(Direction::West.mask(), WEST);
    assert_eq!(Direction::North.opposite(), Direction::South);
    assert_eq!(Direction::East.opposite(), Direction::West);
    assert_eq!(Direction::South.opposite(), Direction::North);
    assert_eq!(Direction::West.opposite(), Direction::East);
}
