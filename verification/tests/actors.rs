use tile_world::entity::player::PlayerEntity;
use tile_world::entity::{Entity, EntityType, Heading, MAX_HEALTH};
use tile_world::tile::base::{BaseTile, TileTexture};
use tile_world::game::{
    GameConfig, Key, DEFAULT_MAX_FPS, DEFAULT_TICK_RATE, MOVE_SPEED, UNLIMITED_FPS,
};
use tile_world::world::World;
use tile_world::TilePosition;

#[test]
fn new_player_is_alive_at_full_health() {
    let player = PlayerEntity::new();
    assert_eq!(MAX_HEALTH, 100);
    assert_eq!(player.get_health(), 100);
    assert!(player.is_alive());
    assert_eq!(player.get_type(), EntityType::Player);
}

#[test]
fn damage_beyond_health_clamps_to_zero() {
    let mut player = PlayerEntity::new();
    player.take_damage(150);
    assert_eq!(player.get_health(), 0);
    assert!(!player.is_alive());
}

#[test]
fn damage_is_taken_off_the_health() {
    let mut player = PlayerEntity::new();
    player.take_damage(30);
    assert_eq!(player.get_health(), 70);
    player.take_damage(0);
    assert_eq!(player.get_health(), 70);
    player.take_damage(69);
    assert_eq!(player.get_health(), 1);
    assert!(player.is_alive());
    player.take_damage(1);
    assert_eq!(player.get_health(), 0);
    assert!(!player.is_alive());
    player.take_damage(255);
    assert_eq!(player.get_health(), 0);
}

#[test]
fn respawn_restores_full_health() {
    for damage in [0u8, 1, 99, 100, 101, 255] {
        let mut player = PlayerEntity::new();
        player.take_damage(damage);
        player.respawn();
        assert_eq!(player.get_health(), MAX_HEALTH);
        assert!(player.is_alive());
    }
}

#[test]
fn set_health_is_capped_at_the_maximum() {
    let mut player = PlayerEntity::new();
    player.set_health(40);
    assert_eq!(player.get_health(), 40);
    player.set_health(100);
    assert_eq!(player.get_health(), 100);
    player.set_health(101);
    assert_eq!(player.get_health(), 100);
    player.set_health(255);
    assert_eq!(player.get_health(), 100);
    player.set_health(0);
    assert_eq!(player.get_health(), 0);
    assert!(!player.is_alive());
}

#[test]
fn entity_forwards_to_its_variant() {
    let mut entity = Entity::Player(PlayerEntity::new());
    assert_eq!(entity.get_type(), EntityType::Player);
    entity.take_damage(150);
    assert_eq!(entity.get_health(), 0);
    assert!(!entity.is_alive());
    entity.respawn();
    assert_eq!(entity.get_health(), 100);
    entity.set_health(200);
    assert_eq!(entity.get_health(), 100);
    entity.set_health(7);
    assert_eq!(entity.get_health(), 7);
    assert!(entity.is_alive());
}

#[test]
fn world_keeps_entities_by_handle() {
    let mut world = World::empty(2, 2);
    let first = world.add_entity(Entity::Player(PlayerEntity::new()));
    let mut hurt = PlayerEntity::new();
    hurt.take_damage(60);
    let second = world.add_entity(Entity::Player(hurt));
    assert_eq!(first.index(), 0);
    assert_eq!(second.index(), 1);
    assert_eq!(world.get_entity(&first).unwrap().get_health(), 100);
    assert_eq!(world.get_entity(&second).unwrap().get_health(), 40);

    let mut entity = *world.get_entity(&second).unwrap();
    entity.take_damage(50);
    assert!(world.set_entity(&second, entity));
    assert_eq!(world.get_entity(&second).unwrap().get_health(), 0);
    assert_eq!(world.get_entity(&first).unwrap().get_health(), 100);

    // removal is not offered: the entity stays
    world.remove_entity(&first);
    assert_eq!(world.get_entity(&first).unwrap().get_health(), 100);
    // tiles are not touched by any of this
    assert!(!world.is_occupied(&TilePosition(0, 0)));
}

#[test]
fn a_handle_of_another_world_names_nothing() {
    let mut big = World::empty(1, 1);
    big.add_entity(Entity::Player(PlayerEntity::new()));
    let handle = big.add_entity(Entity::Player(PlayerEntity::new()));
    let mut small = World::empty(1, 1);
    assert!(small.get_entity(&handle).is_none());
    assert!(!small.set_entity(&handle, Entity::Player(PlayerEntity::new())));
    assert!(small.get_entity(&handle).is_none());
}

#[test]
fn config_falls_back_to_the_defaults() {
    assert_eq!((DEFAULT_TICK_RATE, DEFAULT_MAX_FPS), (30, 60));
    assert_eq!(GameConfig::new(None, None), GameConfig { tick_rate: 30, max_fps: 60 });
    assert_eq!(GameConfig::new(Some(5), None), GameConfig { tick_rate: 5, max_fps: 60 });
    assert_eq!(GameConfig::new(None, Some(0)), GameConfig { tick_rate: 30, max_fps: 0 });
    assert_eq!(GameConfig::new(Some(255), Some(1)), GameConfig { tick_rate: 255, max_fps: 1 });
}

#[test]
fn tick_is_due_after_one_period() {
    let config = GameConfig::new(None, None);
    assert!(!config.tick_due(0));
    assert!(!config.tick_due(33_333_333));
    assert!(config.tick_due(33_333_334));
    assert!(config.tick_due(u64::MAX));
    let slow = GameConfig::new(Some(1), None);
    assert!(!slow.tick_due(999_999_999));
    assert!(slow.tick_due(1_000_000_000));
    let stopped = GameConfig::new(Some(0), None);
    assert!(!stopped.tick_due(0));
    assert!(!stopped.tick_due(u64::MAX));
}

#[test]
fn frame_is_due_after_one_period() {
    let config = GameConfig::new(None, None);
    assert!(!config.frame_due(16_666_666));
    assert!(config.frame_due(16_666_667));
    assert_eq!(UNLIMITED_FPS, 1000);
    let unlimited = GameConfig::new(None, Some(0));
    assert!(!unlimited.frame_due(999_999));
    assert!(unlimited.frame_due(1_000_000));
    // the two rates do not depend on each other
    let mixed = GameConfig::new(Some(0), Some(2));
    assert!(!mixed.tick_due(u64::MAX));
    assert!(!mixed.frame_due(499_999_999));
    assert!(mixed.frame_due(500_000_000));
}

#[test]
fn movement_keys_give_impulses() {
    assert_eq!(MOVE_SPEED, 10);
    assert_eq!(Key::W.impulse(), (0, 10));
    assert_eq!(Key::S.impulse(), (0, -10));
    assert_eq!(Key::A.impulse(), (-10, 0));
    assert_eq!(Key::D.impulse(), (10, 0));
    assert_eq!(Key::Other.impulse(), (0, 0));
}

#[test]
fn an_empty_world_blocks_no_one() {
    // an actor 20 wide at (40, 220), on tiles 20 wide, probes half its size ahead
    let world = World::empty(20, 20);
    let cell = |x: f32, y: f32| TilePosition((x / 20.0).round() as usize, (y / 20.0).round() as usize);
    let right = cell(40.0 + 10.0, 220.0);
    let left = cell(40.0 - 10.0, 220.0);
    assert_eq!(right, TilePosition(3, 11));
    assert_eq!(left, TilePosition(2, 11));
    assert!(world.may_advance(Heading::Forward, &right));
    assert!(world.may_advance(Heading::Backward, &left));
    // no velocity, no motion
    assert!(!world.may_advance(Heading::Still, &right));
    // beyond the grid nothing blocks either
    assert!(world.may_advance(Heading::Forward, &TilePosition(20, 11)));
}

#[test]
fn an_occupied_cell_blocks_its_axis_only() {
    let mut world = World::empty(20, 20);
    world.set_tile(&TilePosition(3, 11), BaseTile::new(TileTexture::Stone));
    assert!(!world.may_advance(Heading::Forward, &TilePosition(3, 11)));
    assert!(!world.may_advance(Heading::Backward, &TilePosition(3, 11)));
    assert!(world.may_advance(Heading::Forward, &TilePosition(2, 12)));
    assert!(world.may_advance(Heading::Backward, &TilePosition(2, 10)));
}
