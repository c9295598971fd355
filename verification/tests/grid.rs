use tile_world::tile::air::EmptyTile;
use tile_world::tile::base::{BaseTile, TileTexture};
use tile_world::tile::player::PlayerTile;
use tile_world::tile::{Tile, TileType};
use tile_world::world::World;
use tile_world::TilePosition;

fn stone() -> Tile {
    BaseTile::new(TileTexture::Stone)
}

#[test]
fn empty_world_has_its_size_and_no_tiles() {
    let world = World::empty(4, 3);
    assert_eq!(world.width(), 4);
    assert_eq!(world.height(), 3);
    for y in 0..3 {
        for x in 0..4 {
            let pos = TilePosition(x, y);
            assert_eq!(world.get_tile(&pos), Some(&EmptyTile::new()));
            assert!(!world.is_occupied(&pos));
        }
    }
}

#[test]
fn get_after_set_returns_the_tile() {
    let mut world = World::empty(5, 4);
    for y in 0..4 {
        for x in 0..5 {
            let pos = TilePosition(x, y);
            let tile = if (x + y) % 2 == 0 { stone() } else { PlayerTile::new() };
            assert_eq!(world.set_tile(&pos, tile), Some(&tile));
            assert_eq!(world.get_tile(&pos), Some(&tile));
        }
    }
    // a later set leaves the earlier cells alone
    assert_eq!(world.get_tile(&TilePosition(0, 0)), Some(&stone()));
    assert_eq!(world.get_tile(&TilePosition(1, 0)), Some(&PlayerTile::new()));
}

#[test]
fn set_tile_outside_the_grid_changes_nothing() {
    let mut world = World::empty(2, 2);
    assert_eq!(world.set_tile(&TilePosition(2, 0), stone()), None);
    assert_eq!(world.set_tile(&TilePosition(0, 2), stone()), None);
    for y in 0..2 {
        for x in 0..2 {
            assert!(!world.is_occupied(&TilePosition(x, y)));
        }
    }
    assert_eq!(world.width(), 2);
    assert_eq!(world.height(), 2);
}

#[test]
fn outside_the_grid_there_is_nothing() {
    let mut world = World::empty(3, 2);
    world.set_tile(&TilePosition(2, 1), stone());
    for pos in [
        TilePosition(3, 0),
        TilePosition(0, 2),
        TilePosition(3, 2),
        TilePosition(usize::MAX, 0),
        TilePosition(0, usize::MAX),
        TilePosition(usize::MAX, usize::MAX),
    ] {
        assert_eq!(world.get_tile(&pos), None);
        assert!(!world.is_occupied(&pos));
        assert!(world.get_tile_mut(&pos).is_none());
    }
}

#[test]
fn occupied_means_not_empty() {
    let mut world = World::empty(3, 1);
    world.set_tile(&TilePosition(0, 0), stone());
    world.set_tile(&TilePosition(1, 0), PlayerTile::new());
    assert!(world.is_occupied(&TilePosition(0, 0)));
    assert!(world.is_occupied(&TilePosition(1, 0)));
    assert!(!world.is_occupied(&TilePosition(2, 0)));
    world.set_tile(&TilePosition(0, 0), EmptyTile::new());
    assert!(!world.is_occupied(&TilePosition(0, 0)));
}

#[test]
fn swap_in_tile_hands_back_the_old_tile() {
    let mut world = World::empty(2, 2);
    let pos = TilePosition(1, 1);
    assert_eq!(world.swap_in_tile(&pos, stone()), Some(EmptyTile::new()));
    assert_eq!(world.swap_in_tile(&pos, PlayerTile::new()), Some(stone()));
    assert_eq!(world.get_tile(&pos), Some(&PlayerTile::new()));
    assert_eq!(world.swap_in_tile(&TilePosition(2, 2), stone()), None);
}

#[test]
fn remove_tile_empties_the_cell() {
    let mut world = World::empty(2, 2);
    let pos = TilePosition(0, 1);
    world.set_tile(&pos, stone());
    assert_eq!(world.remove_tile(&pos), Some(stone()));
    assert_eq!(world.get_tile(&pos), Some(&EmptyTile::new()));
    assert_eq!(world.remove_tile(&pos), Some(EmptyTile::new()));
    assert_eq!(world.remove_tile(&TilePosition(5, 5)), None);
}

#[test]
fn get_tile_mut_writes_through() {
    let mut world = World::empty(2, 2);
    let pos = TilePosition(1, 0);
    {
        let cell = world.get_tile_mut(&pos).unwrap();
        assert_eq!(*cell, EmptyTile::new());
        *cell = stone();
    }
    assert_eq!(world.get_tile(&pos), Some(&stone()));
    assert_eq!(world.get_tile(&TilePosition(0, 0)), Some(&EmptyTile::new()));
    assert_eq!(world.get_tile(&TilePosition(1, 1)), Some(&EmptyTile::new()));
}

#[test]
fn swap_tile_exchanges_two_cells() {
    let mut world = World::empty(3, 3);
    let a = TilePosition(0, 0);
    let b = TilePosition(2, 1);
    world.set_tile(&a, stone());
    world.set_tile(&b, PlayerTile::new());
    assert!(world.swap_tile(&a, &b));
    assert_eq!(world.get_tile(&a), Some(&PlayerTile::new()));
    assert_eq!(world.get_tile(&b), Some(&stone()));
    // with itself: nothing moves
    assert!(world.swap_tile(&a, &a));
    assert_eq!(world.get_tile(&a), Some(&PlayerTile::new()));
}

#[test]
fn swap_tile_outside_the_grid_changes_nothing() {
    let mut world = World::empty(2, 2);
    let a = TilePosition(0, 0);
    world.set_tile(&a, stone());
    assert!(!world.swap_tile(&a, &TilePosition(2, 0)));
    assert!(!world.swap_tile(&TilePosition(0, 2), &a));
    assert_eq!(world.get_tile(&a), Some(&stone()));
}

#[test]
fn move_to_a_free_cell_exchanges_the_tiles() {
    let mut world = World::empty(3, 3);
    let from = TilePosition(1, 1);
    let to = TilePosition(2, 2);
    world.set_tile(&from, stone());
    assert!(world.mv_tile(&from, &to));
    assert_eq!(world.get_tile(&to), Some(&stone()));
    assert_eq!(world.get_tile(&from), Some(&EmptyTile::new()));
    for y in 0..3 {
        for x in 0..3 {
            let pos = TilePosition(x, y);
            if pos != to {
                assert!(!world.is_occupied(&pos));
            }
        }
    }
}

#[test]
fn move_to_an_occupied_cell_is_refused() {
    let mut world = World::empty(3, 3);
    let from = TilePosition(0, 0);
    let to = TilePosition(1, 0);
    world.set_tile(&from, stone());
    world.set_tile(&to, PlayerTile::new());
    assert!(!world.mv_tile(&from, &to));
    assert_eq!(world.get_tile(&from), Some(&stone()));
    assert_eq!(world.get_tile(&to), Some(&PlayerTile::new()));
}

#[test]
fn move_outside_the_grid_is_refused() {
    let mut world = World::empty(3, 3);
    let from = TilePosition(2, 2);
    world.set_tile(&from, stone());
    assert!(!world.mv_tile(&from, &TilePosition(3, 2)));
    assert!(!world.mv_tile(&from, &TilePosition(2, 3)));
    assert!(!world.mv_tile(&from, &TilePosition(usize::MAX, usize::MAX)));
    assert_eq!(world.get_tile(&from), Some(&stone()));
    // from outside the grid nothing can be moved either
    assert!(!world.mv_tile(&TilePosition(3, 0), &TilePosition(0, 0)));
    assert!(!world.is_occupied(&TilePosition(0, 0)));
}

#[test]
fn relative_move_follows_the_offset() {
    let mut world = World::empty(5, 5);
    let mut pos = TilePosition(2, 2);
    world.set_tile(&pos, stone());
    assert!(world.mv_tile_rel(&mut pos, (1, -2)));
    assert_eq!(pos, TilePosition(3, 0));
    assert_eq!(world.get_tile(&TilePosition(3, 0)), Some(&stone()));
    assert!(!world.is_occupied(&TilePosition(2, 2)));
    assert!(world.mv_tile_rel(&mut pos, (-3, 4)));
    assert_eq!(pos, TilePosition(0, 4));
    // onto itself: the cell is taken, by the tile itself
    assert!(!world.mv_tile_rel(&mut pos, (0, 0)));
    assert_eq!(pos, TilePosition(0, 4));
    assert_eq!(world.get_tile(&pos), Some(&stone()));
    // an empty cell may stay where it is
    let mut free = TilePosition(1, 1);
    assert!(world.mv_tile_rel(&mut free, (0, 0)));
    assert_eq!(free, TilePosition(1, 1));
    assert!(!world.is_occupied(&free));
}

#[test]
fn relative_move_to_a_negative_coordinate_is_refused() {
    let mut world = World::empty(4, 4);
    let mut pos = TilePosition(0, 1);
    world.set_tile(&pos, stone());
    for offset in [(-1, 0), (0, -2), (-1, -1), (isize::MIN, 0), (0, isize::MIN), (-3, 2)] {
        assert!(!world.mv_tile_rel(&mut pos, offset));
        assert_eq!(pos, TilePosition(0, 1));
        assert_eq!(world.get_tile(&pos), Some(&stone()));
    }
    for y in 0..4 {
        for x in 0..4 {
            assert_eq!(world.is_occupied(&TilePosition(x, y)), (x, y) == (0, 1));
        }
    }
}

#[test]
fn relative_move_beyond_the_grid_or_onto_a_tile_is_refused() {
    let mut world = World::empty(3, 3);
    let mut pos = TilePosition(1, 1);
    world.set_tile(&pos, stone());
    world.set_tile(&TilePosition(2, 1), PlayerTile::new());
    assert!(!world.mv_tile_rel(&mut pos, (1, 0)));
    assert!(!world.mv_tile_rel(&mut pos, (2, 0)));
    assert!(!world.mv_tile_rel(&mut pos, (0, 2)));
    assert!(!world.mv_tile_rel(&mut pos, (isize::MAX, isize::MAX)));
    assert_eq!(pos, TilePosition(1, 1));
    let mut far = TilePosition(usize::MAX, usize::MAX);
    assert!(!world.mv_tile_rel(&mut far, (1, 1)));
    assert_eq!(far, TilePosition(usize::MAX, usize::MAX));
    assert_eq!(world.get_tile(&TilePosition(1, 1)), Some(&stone()));
    assert_eq!(world.get_tile(&TilePosition(2, 1)), Some(&PlayerTile::new()));
}

#[test]
fn update_leaves_the_grid_as_it_is() {
    let mut world = World::empty(3, 2);
    world.set_tile(&TilePosition(1, 1), stone());
    world.set_tile(&TilePosition(2, 0), PlayerTile::new());
    world.update();
    assert_eq!(world.get_tile(&TilePosition(1, 1)), Some(&stone()));
    assert_eq!(world.get_tile(&TilePosition(2, 0)), Some(&PlayerTile::new()));
    assert_eq!(world.get_tile(&TilePosition(0, 0)), Some(&EmptyTile::new()));
    assert_eq!((world.width(), world.height()), (3, 2));
}

#[test]
fn tiles_know_their_type() {
    assert_eq!(EmptyTile::new().get_type(), TileType::Empty);
    assert_eq!(stone().get_type(), TileType::Base);
    assert_eq!(PlayerTile::new().get_type(), TileType::Player);
    assert_eq!(EmptyTile.get_type(), TileType::Empty);
    assert_eq!(PlayerTile {}.get_type(), TileType::Player);
    assert_eq!(BaseTile { texture: TileTexture::Dirt }.get_type(), TileType::Base);
}

#[test]
fn tile_update_hooks_change_nothing() {
    for tile in [EmptyTile::new(), stone(), PlayerTile::new()] {
        let mut updated = tile;
        updated.update();
        assert_eq!(updated, tile);
    }
}

#[test]
fn as_base_gives_the_terrain_payload() {
    assert_eq!(stone().as_base(), Some(&BaseTile { texture: TileTexture::Stone }));
    assert_eq!(EmptyTile::new().as_base(), None);
    assert_eq!(PlayerTile::new().as_base(), None);
    assert_eq!(stone().as_base().unwrap().get_texture(), &TileTexture::Stone);
}
