use pyzalea::arena::FastArena;
use pyzalea::combat::resolve_attack;
use pyzalea::fighter::Fighter;
use pyzalea::fixed::UNIT;

const DEG: i64 = UNIT;

fn facing_pair(distance: i64) -> FastArena {
    let mut arena = FastArena::new(32 * UNIT, 2400);
    arena.reset(distance);
    arena
}

fn at(x: i64, y: i64, z: i64) -> Fighter {
    let mut f = Fighter::new();
    f.x = x;
    f.y = y;
    f.z = z;
    f
}

#[test]
fn a_hit_takes_the_damage_and_records_it() {
    let mut arena = facing_pair(2 * UNIT);
    assert!(arena.try_attack(0));
    assert_eq!(arena.fighter2.health, 18_800_000);
    assert_eq!(arena.fighter2.damage_taken, 1_200_000);
    assert_eq!(arena.fighter2.hits_taken, 1);
    assert_eq!(arena.fighter1.damage_dealt, 1_200_000);
    assert_eq!(arena.fighter1.hits_landed, 1);
    assert_eq!(arena.fighter1.attack_cooldown, 10);
    assert_eq!(arena.fighter1.health, 20 * UNIT);
    assert_eq!(arena.fighter2.attack_cooldown, 0);
}

#[test]
fn a_hit_knocks_the_defender_back_and_up() {
    let mut arena = facing_pair(2 * UNIT);
    assert!(arena.try_attack(0));
    assert_eq!(arena.fighter2.vx, 400_000);
    assert_eq!(arena.fighter2.vy, 360_000);
    assert_eq!(arena.fighter2.vz, 0);
    assert!(!arena.fighter2.on_ground);
    assert_eq!(arena.fighter2.x, UNIT);
    assert_eq!(arena.fighter2.y, 0);
    assert_eq!((arena.fighter1.vx, arena.fighter1.vy, arena.fighter1.vz), (0, 0, 0));
}

#[test]
fn the_second_fighter_swings_for_any_other_index() {
    let mut arena = facing_pair(2 * UNIT);
    assert!(arena.try_attack(1));
    assert_eq!(arena.fighter1.health, 18_800_000);
    assert_eq!(arena.fighter1.vx, -400_000);
    assert_eq!(arena.fighter2.attack_cooldown, 10);

    let mut arena = facing_pair(2 * UNIT);
    assert!(arena.try_attack(7));
    assert_eq!(arena.fighter1.health, 18_800_000);
    assert_eq!(arena.fighter2.hits_landed, 1);
}

#[test]
fn knockback_follows_the_attackers_heading() {
    let mut att = at(0, 0, 0);
    att.yaw = 30 * DEG;
    // the defender stands along the heading: x = -sin, z = cos
    let mut def = at(-UNIT, 0, 1_732_051);
    assert!(resolve_attack(&mut att, &mut def));
    assert_eq!(def.vx, -200_000);
    // 0.4 times the cosine of thirty degrees, 0.866025
    assert_eq!(def.vz, 346_410);
    assert_eq!(def.vy, 360_000);
}

#[test]
fn a_sprinting_airborne_attacker_hits_critically() {
    let mut arena = facing_pair(2 * UNIT);
    arena.fighter1.sprinting = true;
    arena.fighter1.on_ground = false;
    assert!(arena.try_attack(0));
    assert_eq!(arena.fighter2.health, 18_200_000);
    assert_eq!(arena.fighter2.damage_taken, 1_800_000);
    assert_eq!(arena.fighter1.damage_dealt, 1_800_000);
    assert!(!arena.fighter1.sprinting);
}

#[test]
fn sprinting_on_the_ground_is_no_critical_hit() {
    let mut arena = facing_pair(2 * UNIT);
    arena.fighter1.sprinting = true;
    assert!(arena.try_attack(0));
    assert_eq!(arena.fighter2.health, 18_800_000);
    assert!(!arena.fighter1.sprinting);

    let mut arena = facing_pair(2 * UNIT);
    arena.fighter1.on_ground = false;
    assert!(arena.try_attack(0));
    assert_eq!(arena.fighter2.health, 18_800_000);
}

#[test]
fn no_swing_while_the_cooldown_runs() {
    let mut arena = facing_pair(2 * UNIT);
    arena.fighter1.attack_cooldown = 1;
    let before = arena;
    assert!(!arena.try_attack(0));
    assert_eq!(arena, before);
}

#[test]
fn no_swing_while_eating() {
    let mut arena = facing_pair(2 * UNIT);
    arena.fighter1.eating = true;
    arena.fighter1.eating_ticks = 3;
    let before = arena;
    assert!(!arena.try_attack(0));
    assert_eq!(arena, before);
}

#[test]
fn ten_blocks_apart_every_swing_misses() {
    let mut cooldown: u32 = 0;
    while cooldown <= 12 {
        let mut arena = facing_pair(10 * UNIT);
        arena.fighter1.attack_cooldown = cooldown;
        arena.fighter2.attack_cooldown = cooldown;
        let before = arena;
        assert!(!arena.try_attack(0));
        assert!(!arena.try_attack(1));
        assert_eq!(arena, before);
        assert_eq!(arena.fighter1.health, 20 * UNIT);
        assert_eq!(arena.fighter2.health, 20 * UNIT);
        cooldown += 1;
    }
}

#[test]
fn the_range_is_inclusive() {
    let mut arena = facing_pair(3 * UNIT);
    assert!(arena.try_attack(0));

    let mut arena = facing_pair(3 * UNIT);
    arena.fighter2.x += 1;
    let before = arena;
    assert!(!arena.try_attack(0));
    assert_eq!(arena, before);
}

#[test]
fn the_range_counts_height() {
    let mut att = at(0, 0, 0);
    let mut def = at(0, 2 * UNIT, 2 * UNIT);
    assert!(resolve_attack(&mut att, &mut def));

    // 2^2 + 2^2 + 1^2 = 9
    let mut att = at(0, 0, 0);
    att.yaw = -45 * DEG;
    let mut def = at(2 * UNIT, UNIT, 2 * UNIT);
    assert!(resolve_attack(&mut att, &mut def));

    let mut att = at(0, 0, 0);
    att.yaw = -45 * DEG;
    let mut def = at(2 * UNIT, UNIT + 1, 2 * UNIT);
    assert!(!resolve_attack(&mut att, &mut def));

    let mut att = at(0, 0, 0);
    let mut def = at(0, 3 * UNIT + 1, 0);
    assert!(!resolve_attack(&mut att, &mut def));
}

#[test]
fn fighters_far_beyond_any_range_miss() {
    let mut att = at(i64::MIN, i64::MIN, i64::MIN);
    let mut def = at(i64::MAX, i64::MAX, i64::MAX);
    assert!(!resolve_attack(&mut att, &mut def));
    assert!(!resolve_attack(&mut def, &mut att));
}

#[test]
fn a_swing_needs_the_defender_in_front() {
    let mut att = at(0, 0, 0);
    let mut def = at(0, 0, 2 * UNIT);
    assert!(resolve_attack(&mut att, &mut def));

    let mut att = at(0, 0, 0);
    let mut def = at(0, 0, -2 * UNIT);
    let before = (att, def);
    assert!(!resolve_attack(&mut att, &mut def));
    assert_eq!((att, def), before);

    let mut att = at(0, 0, 0);
    let mut def = at(2 * UNIT, 0, 0);
    assert!(!resolve_attack(&mut att, &mut def));

    let mut att = at(0, 0, 0);
    let mut def = at(-2 * UNIT, 0, 0);
    assert!(!resolve_attack(&mut att, &mut def));
}

#[test]
fn the_facing_cone_is_sixty_degrees_to_each_side() {
    // the defender bears 45 degrees
    let def_start = at(-UNIT, 0, UNIT);

    let mut att = at(0, 0, 0);
    att.yaw = -15 * DEG;
    let mut def = def_start;
    assert!(resolve_attack(&mut att, &mut def));

    let mut att = at(0, 0, 0);
    att.yaw = -15 * DEG - 1;
    let mut def = def_start;
    assert!(!resolve_attack(&mut att, &mut def));

    let mut att = at(0, 0, 0);
    att.yaw = 105 * DEG;
    let mut def = def_start;
    assert!(resolve_attack(&mut att, &mut def));

    let mut att = at(0, 0, 0);
    att.yaw = 105 * DEG + 1;
    let mut def = def_start;
    assert!(!resolve_attack(&mut att, &mut def));
}

#[test]
fn the_aim_error_folds_at_the_half_turn() {
    // the defender bears 180 degrees
    let mut att = at(0, 0, 0);
    att.yaw = -179 * DEG;
    let mut def = at(0, 0, -2 * UNIT);
    assert!(resolve_attack(&mut att, &mut def));

    let mut att = at(0, 0, 0);
    att.yaw = -120 * DEG;
    let mut def = at(0, 0, -2 * UNIT);
    assert!(resolve_attack(&mut att, &mut def));

    let mut att = at(0, 0, 0);
    att.yaw = -119 * DEG;
    let mut def = at(0, 0, -2 * UNIT);
    assert!(!resolve_attack(&mut att, &mut def));
}

#[test]
fn fighters_on_one_spot_bear_zero() {
    let mut att = at(5, 5, 5);
    let mut def = at(5, 5, 5);
    assert!(resolve_attack(&mut att, &mut def));

    let mut att = at(5, 5, 5);
    att.yaw = 61 * DEG;
    let mut def = at(5, 5, 5);
    assert!(!resolve_attack(&mut att, &mut def));
}

#[test]
fn a_hit_interrupts_the_meal_without_feeding() {
    let mut arena = facing_pair(2 * UNIT);
    arena.fighter2.eating = true;
    arena.fighter2.eating_ticks = 5;
    arena.fighter2.food = 10 * UNIT;
    arena.fighter2.steaks = 3;
    assert!(arena.try_attack(0));
    assert!(!arena.fighter2.eating);
    assert_eq!(arena.fighter2.eating_ticks, 0);
    assert_eq!(arena.fighter2.food, 10 * UNIT);
    assert_eq!(arena.fighter2.steaks, 3);
}

#[test]
fn a_hit_on_the_last_bite_feeds_nothing_either() {
    let mut arena = facing_pair(2 * UNIT);
    arena.fighter2.eating = true;
    arena.fighter2.eating_ticks = 1;
    arena.fighter2.food = 10 * UNIT;
    assert!(arena.try_attack(0));
    assert!(!arena.fighter2.eating);
    assert_eq!(arena.fighter2.eating_ticks, 0);
    assert_eq!(arena.fighter2.food, 10 * UNIT);
    assert_eq!(arena.fighter2.steaks, 64);
}

#[test]
fn health_may_go_below_zero() {
    let mut arena = facing_pair(2 * UNIT);
    arena.fighter2.health = 800_000;
    assert!(arena.try_attack(0));
    assert_eq!(arena.fighter2.health, -400_000);
}

#[test]
fn full_records_stay_full() {
    let mut att = at(0, 0, 0);
    att.hits_landed = u32::MAX;
    att.damage_dealt = i64::MAX;
    let mut def = at(0, 0, UNIT);
    def.hits_taken = u32::MAX;
    def.damage_taken = i64::MAX - 5;
    def.health = i64::MIN + 5;
    def.vy = i64::MAX;
    def.vz = i64::MAX;
    assert!(resolve_attack(&mut att, &mut def));
    assert_eq!(att.hits_landed, u32::MAX);
    assert_eq!(att.damage_dealt, i64::MAX);
    assert_eq!(def.hits_taken, u32::MAX);
    assert_eq!(def.damage_taken, i64::MAX);
    assert_eq!(def.health, i64::MIN);
    assert_eq!(def.vy, i64::MAX);
    assert_eq!(def.vz, i64::MAX);
}

#[test]
fn a_miss_leaves_both_fighters_untouched() {
    let mut att = at(0, 0, 0);
    att.sprinting = true;
    att.yaw = 90 * DEG;
    let mut def = at(0, 0, 2 * UNIT);
    def.eating = true;
    def.eating_ticks = 7;
    let before = (att, def);
    assert!(!resolve_attack(&mut att, &mut def));
    assert_eq!((att, def), before);
}
