use pyzalea::arena::FastArena;
use pyzalea::fighter::{Fighter, FighterAction};
use pyzalea::fixed::UNIT;
use pyzalea::params::{
    DEFAULT_ARENA_SIZE, DEFAULT_MAX_TICKS, MAX_FOOD, MAX_HEALTH, WINNER_NONE,
};

#[test]
fn new_arena_has_walls_at_half_the_edge() {
    let arena = FastArena::new(32 * UNIT, 2400);
    assert_eq!(arena.min_x, -16 * UNIT);
    assert_eq!(arena.max_x, 16 * UNIT);
    assert_eq!(arena.min_z, -16 * UNIT);
    assert_eq!(arena.max_z, 16 * UNIT);
    assert_eq!(arena.floor_y, 0);
    assert_eq!(arena.max_ticks, 2400);
    assert_eq!(arena.tick, 0);
    assert!(!arena.done);
    assert_eq!(arena.winner, WINNER_NONE);
    assert_eq!(arena.fighter1, Fighter::new());
    assert_eq!(arena.fighter2, Fighter::new());
}

#[test]
fn the_half_edge_is_rounded_down() {
    let arena = FastArena::new(5, 1);
    assert_eq!((arena.min_x, arena.max_x), (-2, 2));
    let arena = FastArena::new(1, 1);
    assert_eq!((arena.min_z, arena.max_z), (0, 0));
    let arena = FastArena::new(i64::MAX, 1);
    assert_eq!((arena.min_x, arena.max_x), (-(i64::MAX / 2), i64::MAX / 2));
}

#[test]
fn a_negative_edge_puts_the_walls_out_of_order() {
    let arena = FastArena::new(-10 * UNIT, 5);
    assert_eq!((arena.min_x, arena.max_x), (5 * UNIT, -5 * UNIT));
    assert_eq!((arena.min_z, arena.max_z), (5 * UNIT, -5 * UNIT));
    let arena = FastArena::new(i64::MIN, 5);
    assert_eq!((arena.min_x, arena.max_x), (1 << 62, -(1 << 62)));
    // between such walls a fighter ends on one of them
    let mut arena = FastArena::new(-10 * UNIT, 5);
    arena.reset(2 * UNIT);
    arena.fighter2.x = 7 * UNIT;
    arena.step(&FighterAction::new(), &FighterAction::new());
    assert_eq!(arena.fighter1.x, 5 * UNIT);
    assert_eq!(arena.fighter2.x, -5 * UNIT);
    assert_eq!(arena.tick, 1);
}

#[test]
fn an_arena_without_room_pins_the_fighters() {
    let mut arena = FastArena::new(0, 10);
    arena.reset(4 * UNIT);
    assert_eq!(arena.fighter1.x, -2 * UNIT);
    let mut walk = FighterAction::new();
    walk.forward = true;
    arena.step(&walk, &walk);
    assert_eq!((arena.fighter1.x, arena.fighter1.z), (0, 0));
    assert_eq!((arena.fighter2.x, arena.fighter2.z), (0, 0));
    assert_eq!(arena.fighter1.vx, 98_000);
    assert_eq!(arena.fighter2.vx, -98_000);
}

#[test]
fn the_defaults() {
    assert_eq!(DEFAULT_ARENA_SIZE, 32 * UNIT);
    assert_eq!(DEFAULT_MAX_TICKS, 2400);
    let arena = FastArena::default();
    assert_eq!(arena.max_x, 16 * UNIT);
    assert_eq!(arena.max_ticks, 2400);
}

#[test]
fn fresh_fighter_is_full_and_idle() {
    let f = Fighter::new();
    assert_eq!((f.x, f.y, f.z), (0, 0, 0));
    assert_eq!((f.vx, f.vy, f.vz), (0, 0, 0));
    assert_eq!((f.yaw, f.pitch), (0, 0));
    assert_eq!(f.health, MAX_HEALTH);
    assert_eq!(f.food, MAX_FOOD);
    assert_eq!(f.health, 20 * UNIT);
    assert_eq!(f.steaks, 64);
    assert_eq!((f.attack_cooldown, f.eating_ticks, f.jump_cooldown), (0, 0, 0));
    assert!(f.on_ground);
    assert!(!f.sprinting);
    assert!(!f.eating);
    assert_eq!((f.damage_dealt, f.damage_taken, f.hits_landed, f.hits_taken), (0, 0, 0, 0));
    assert_eq!(f, Fighter::default());
}

#[test]
fn a_new_action_asks_for_nothing() {
    let a = FighterAction::new();
    assert!(!a.forward && !a.backward && !a.left && !a.right);
    assert!(!a.jump && !a.sprint && !a.attack && !a.eat);
    assert_eq!((a.delta_yaw, a.delta_pitch), (0, 0));
    assert_eq!(a, FighterAction::default());
}

#[test]
fn a_reset_places_the_fighters_face_to_face() {
    let mut arena = FastArena::new(32 * UNIT, 2400);
    arena.fighter1.health = 3;
    arena.fighter2.eating = true;
    arena.tick = 77;
    arena.done = true;
    arena.winner = 2;
    arena.reset(8 * UNIT);
    let mut first = Fighter::new();
    first.x = -4 * UNIT;
    first.yaw = -90 * UNIT;
    let mut second = Fighter::new();
    second.x = 4 * UNIT;
    second.yaw = 90 * UNIT;
    assert_eq!(arena.fighter1, first);
    assert_eq!(arena.fighter2, second);
    assert_eq!(arena.tick, 0);
    assert!(!arena.done);
    assert_eq!(arena.winner, WINNER_NONE);
    // each walks toward the other
    let mut walk = FighterAction::new();
    walk.forward = true;
    arena.step(&walk, &walk);
    assert_eq!(arena.fighter1.x, -4 * UNIT + 98_000);
    assert_eq!(arena.fighter2.x, 4 * UNIT - 98_000);
    assert_eq!((arena.fighter1.z, arena.fighter2.z), (0, 0));
}

#[test]
fn fighters_who_walk_toward_each_other_meet_and_fight() {
    let mut arena = FastArena::new(32 * UNIT, 2400);
    arena.reset(8 * UNIT);
    let mut charge = FighterAction::new();
    charge.forward = true;
    charge.attack = true;
    let mut ticks = 0;
    while arena.fighter1.hits_landed == 0 {
        let gap_before = arena.fighter2.x - arena.fighter1.x;
        arena.step(&charge, &charge);
        ticks += 1;
        assert!(ticks < 100);
        if arena.fighter1.hits_landed == 0 {
            assert!(arena.fighter2.x - arena.fighter1.x < gap_before);
            assert!(arena.fighter2.x - arena.fighter1.x > 3 * UNIT);
        }
    }
    assert!(arena.fighter2.x - arena.fighter1.x <= 3 * UNIT);
    // both are in reach when the swings are resolved, so each lands one
    assert_eq!(arena.fighter2.hits_taken, 1);
    assert_eq!(arena.fighter1.hits_taken, 1);
}
