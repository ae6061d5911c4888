use pyzalea::arena::FastArena;
use pyzalea::fighter::{Fighter, FighterAction};
use pyzalea::fixed::UNIT;

const DEG: i64 = UNIT;

fn arena() -> FastArena {
    FastArena::new(32 * UNIT, 2400)
}

fn moved(f: Fighter, a: FighterAction) -> Fighter {
    let mut f = f;
    arena().apply_movement(&mut f, &a);
    f
}

#[test]
fn an_idle_fighter_at_rest_stays_as_it_is() {
    assert_eq!(moved(Fighter::new(), FighterAction::new()), Fighter::new());
}

#[test]
fn walking_forward_at_heading_zero_goes_along_z() {
    let mut a = FighterAction::new();
    a.forward = true;
    let f = moved(Fighter::new(), a);
    assert_eq!(f.vx, 0);
    assert_eq!(f.vz, 98_000);
    assert_eq!(f.x, 0);
    assert_eq!(f.z, 98_000);
    assert!(!f.sprinting);
    assert!(f.on_ground);
}

#[test]
fn walking_backward_left_and_right_at_heading_zero() {
    let mut a = FighterAction::new();
    a.backward = true;
    let f = moved(Fighter::new(), a);
    assert_eq!((f.vx, f.vz), (0, -98_000));

    let mut a = FighterAction::new();
    a.left = true;
    let f = moved(Fighter::new(), a);
    assert_eq!((f.vx, f.vz), (98_000, 0));

    let mut a = FighterAction::new();
    a.right = true;
    let f = moved(Fighter::new(), a);
    assert_eq!((f.vx, f.vz), (-98_000, 0));
}

#[test]
fn heading_minus_ninety_looks_along_plus_x() {
    let mut start = Fighter::new();
    start.yaw = -90 * DEG;
    let mut a = FighterAction::new();
    a.forward = true;
    let f = moved(start, a);
    assert_eq!((f.vx, f.vz), (98_000, 0));
    assert_eq!(f.x, 98_000);
}

#[test]
fn heading_ninety_looks_along_minus_x() {
    let mut start = Fighter::new();
    start.yaw = 90 * DEG;
    let mut a = FighterAction::new();
    a.forward = true;
    let f = moved(start, a);
    assert_eq!((f.vx, f.vz), (-98_000, 0));
}

#[test]
fn the_turn_is_applied_before_the_thrust() {
    let mut a = FighterAction::new();
    a.forward = true;
    a.delta_yaw = -90 * DEG;
    let f = moved(Fighter::new(), a);
    assert_eq!(f.yaw, -90 * DEG);
    assert_eq!((f.vx, f.vz), (98_000, 0));
}

#[test]
fn opposite_intents_cancel() {
    let mut a = FighterAction::new();
    a.forward = true;
    a.backward = true;
    let f = moved(Fighter::new(), a);
    assert_eq!((f.vx, f.vz), (0, 0));

    let mut a = FighterAction::new();
    a.left = true;
    a.right = true;
    a.forward = true;
    let f = moved(Fighter::new(), a);
    assert_eq!((f.vx, f.vz), (0, 98_000));

    let mut a = FighterAction::new();
    a.left = true;
    a.right = true;
    a.forward = true;
    a.backward = true;
    let f = moved(Fighter::new(), a);
    assert_eq!((f.vx, f.vz), (0, 0));
}

#[test]
fn diagonal_movement_is_no_faster() {
    let mut a = FighterAction::new();
    a.forward = true;
    a.left = true;
    let f = moved(Fighter::new(), a);
    // each axis gets 1/sqrt(2) of the walking speed, then drag
    assert_eq!((f.vx, f.vz), (69_295, 69_295));
    let speed_squared = f.vx * f.vx + f.vz * f.vz;
    assert!(speed_squared <= 98_000 * 98_000);
}

#[test]
fn off_axis_headings_keep_the_full_speed() {
    let mut start = Fighter::new();
    start.yaw = 45 * DEG;
    let mut a = FighterAction::new();
    a.forward = true;
    let f = moved(start, a);
    assert_eq!((f.vx, f.vz), (-69_295, 69_295));
}

#[test]
fn sprinting_needs_forward_and_food() {
    let mut a = FighterAction::new();
    a.forward = true;
    a.sprint = true;
    let f = moved(Fighter::new(), a);
    assert!(f.sprinting);
    assert_eq!(f.vz, 127_400);

    let mut hungry = Fighter::new();
    hungry.food = 6 * UNIT;
    let f = moved(hungry, a);
    assert!(!f.sprinting);
    assert_eq!(f.vz, 98_000);

    let mut fed = Fighter::new();
    fed.food = 6 * UNIT + 1;
    let f = moved(fed, a);
    assert!(f.sprinting);

    let mut b = FighterAction::new();
    b.backward = true;
    b.sprint = true;
    let f = moved(Fighter::new(), b);
    assert!(!f.sprinting);
    assert_eq!(f.vz, -98_000);
}

#[test]
fn the_sprint_flag_is_decided_anew_each_tick() {
    let mut start = Fighter::new();
    start.sprinting = true;
    let f = moved(start, FighterAction::new());
    assert!(!f.sprinting);
}

#[test]
fn an_eating_fighter_gains_no_speed() {
    let mut start = Fighter::new();
    start.eating = true;
    start.eating_ticks = 10;
    let mut a = FighterAction::new();
    a.forward = true;
    a.left = true;
    let f = moved(start, a);
    assert_eq!((f.vx, f.vz), (0, 0));
    assert_eq!((f.x, f.z), (0, 0));
}

#[test]
fn an_eating_fighter_still_drifts() {
    let mut start = Fighter::new();
    start.eating = true;
    start.vx = 1_000;
    start.vz = -2_000;
    let mut a = FighterAction::new();
    a.forward = true;
    let f = moved(start, a);
    assert_eq!((f.vx, f.vz), (980, -1_960));
    assert_eq!((f.x, f.z), (980, -1_960));
}

#[test]
fn drag_rounds_toward_zero() {
    let mut start = Fighter::new();
    start.vx = 1;
    start.vz = -1;
    let f = moved(start, FighterAction::new());
    assert_eq!((f.vx, f.vz), (0, 0));

    let mut start = Fighter::new();
    start.vx = -150;
    start.vz = 150;
    let f = moved(start, FighterAction::new());
    assert_eq!((f.vx, f.vz), (-147, 147));
}

#[test]
fn a_jump_lifts_off_and_starts_the_cooldown() {
    let mut a = FighterAction::new();
    a.jump = true;
    let f = moved(Fighter::new(), a);
    assert_eq!(f.vy, 340_000);
    assert_eq!(f.y, 340_000);
    assert!(!f.on_ground);
    assert_eq!(f.jump_cooldown, 10);
}

#[test]
fn gravity_pulls_while_airborne() {
    let mut a = FighterAction::new();
    a.jump = true;
    let f = moved(Fighter::new(), a);
    let f = moved(f, FighterAction::new());
    assert_eq!(f.vy, 260_000);
    assert_eq!(f.y, 600_000);
    assert!(!f.on_ground);
}

#[test]
fn a_jump_ends_on_the_floor() {
    let mut a = FighterAction::new();
    a.jump = true;
    let mut f = moved(Fighter::new(), a);
    let mut ticks = 1;
    while !f.on_ground {
        f = moved(f, FighterAction::new());
        ticks += 1;
        assert!(ticks < 100);
        assert!(f.y >= 0);
    }
    assert_eq!(f.y, 0);
    assert_eq!(f.vy, 0);
    // 0.34, 0.26, ... : the height is positive for nine ticks
    assert_eq!(ticks, 10);
}

#[test]
fn no_jump_while_the_cooldown_runs() {
    let mut start = Fighter::new();
    start.jump_cooldown = 1;
    let mut a = FighterAction::new();
    a.jump = true;
    let f = moved(start, a);
    assert!(f.on_ground);
    assert_eq!(f.vy, 0);
    assert_eq!(f.y, 0);
    assert_eq!(f.jump_cooldown, 1);
}

#[test]
fn no_jump_in_the_air_or_at_table() {
    let mut start = Fighter::new();
    start.on_ground = false;
    start.y = 5 * UNIT;
    let mut a = FighterAction::new();
    a.jump = true;
    let f = moved(start, a);
    assert_eq!(f.vy, -80_000);
    assert_eq!(f.jump_cooldown, 0);

    let mut start = Fighter::new();
    start.eating = true;
    let f = moved(start, a);
    assert!(f.on_ground);
    assert_eq!(f.vy, 0);
    assert_eq!(f.jump_cooldown, 0);
}

#[test]
fn landing_zeroes_the_fall() {
    let mut start = Fighter::new();
    start.on_ground = false;
    start.y = 50_000;
    start.vy = -100_000;
    let f = moved(start, FighterAction::new());
    assert_eq!(f.y, 0);
    assert_eq!(f.vy, 0);
    assert!(f.on_ground);
}

#[test]
fn the_floor_can_be_anywhere() {
    let mut arena = arena();
    arena.floor_y = 3 * UNIT;
    let mut f = Fighter::new();
    arena.apply_movement(&mut f, &FighterAction::new());
    assert_eq!(f.y, 3 * UNIT);
    assert!(f.on_ground);
}

#[test]
fn walls_stop_the_position_but_not_the_velocity() {
    let mut start = Fighter::new();
    start.x = 15_990_000;
    start.vx = UNIT;
    start.z = -15_990_000;
    start.vz = -UNIT;
    let f = moved(start, FighterAction::new());
    assert_eq!(f.x, 16 * UNIT);
    assert_eq!(f.z, -16 * UNIT);
    assert_eq!((f.vx, f.vz), (980_000, -980_000));
}

#[test]
fn a_fighter_outside_the_walls_is_brought_in() {
    let mut start = Fighter::new();
    start.x = 50 * UNIT;
    start.z = -50 * UNIT;
    let f = moved(start, FighterAction::new());
    assert_eq!((f.x, f.z), (16 * UNIT, -16 * UNIT));
}

#[test]
fn pitch_is_held_within_a_quarter_turn() {
    let mut start = Fighter::new();
    start.pitch = 80 * DEG;
    let mut a = FighterAction::new();
    a.delta_pitch = 20 * DEG;
    assert_eq!(moved(start, a).pitch, 90 * DEG);
    a.delta_pitch = 5 * DEG;
    assert_eq!(moved(start, a).pitch, 85 * DEG);
    a.delta_pitch = i64::MAX;
    assert_eq!(moved(start, a).pitch, 90 * DEG);
    a.delta_pitch = i64::MIN;
    assert_eq!(moved(start, a).pitch, -90 * DEG);
}

#[test]
fn heading_wraps_into_the_half_open_turn() {
    let mut start = Fighter::new();
    start.yaw = 170 * DEG;
    let mut a = FighterAction::new();
    a.delta_yaw = 20 * DEG;
    assert_eq!(moved(start, a).yaw, -170 * DEG);
    a.delta_yaw = 10 * DEG;
    assert_eq!(moved(start, a).yaw, 180 * DEG);
    start.yaw = -170 * DEG;
    a.delta_yaw = -10 * DEG;
    assert_eq!(moved(start, a).yaw, 180 * DEG);
    a.delta_yaw = 720 * DEG;
    assert_eq!(moved(start, a).yaw, -170 * DEG);
}

#[test]
fn extreme_vertical_values_saturate() {
    let mut start = Fighter::new();
    start.on_ground = false;
    start.vy = i64::MIN;
    start.y = 5 * UNIT;
    let f = moved(start, FighterAction::new());
    assert_eq!(f.y, 0);
    assert_eq!(f.vy, 0);
    assert!(f.on_ground);

    let mut start = Fighter::new();
    start.on_ground = false;
    start.vy = i64::MAX;
    start.y = i64::MAX;
    let f = moved(start, FighterAction::new());
    assert_eq!(f.y, i64::MAX);
    assert_eq!(f.vy, i64::MAX - 80_000);
    assert!(!f.on_ground);
}

#[test]
fn extreme_horizontal_values_stay_in_range() {
    let mut start = Fighter::new();
    start.vx = i64::MAX;
    start.vz = i64::MIN;
    start.x = i64::MAX;
    start.z = i64::MIN;
    let mut a = FighterAction::new();
    a.forward = true;
    a.left = true;
    a.sprint = true;
    let f = moved(start, a);
    assert_eq!(f.x, 16 * UNIT);
    assert_eq!(f.z, -16 * UNIT);
    assert!(f.vx > 0 && f.vx < i64::MAX);
    assert!(f.vz < 0 && f.vz > i64::MIN);
}

#[test]
fn movement_leaves_the_rest_alone() {
    let mut start = Fighter::new();
    start.health = 7 * UNIT;
    start.food = 3 * UNIT;
    start.steaks = 5;
    start.attack_cooldown = 4;
    start.eating_ticks = 9;
    start.damage_dealt = 11;
    start.damage_taken = 12;
    start.hits_landed = 13;
    start.hits_taken = 14;
    let mut a = FighterAction::new();
    a.forward = true;
    a.attack = true;
    a.eat = true;
    let f = moved(start, a);
    assert_eq!(f.health, 7 * UNIT);
    assert_eq!(f.food, 3 * UNIT);
    assert_eq!(f.steaks, 5);
    assert_eq!(f.attack_cooldown, 4);
    assert_eq!(f.eating_ticks, 9);
    assert!(!f.eating);
    assert_eq!(f.damage_dealt, 11);
    assert_eq!(f.damage_taken, 12);
    assert_eq!(f.hits_landed, 13);
    assert_eq!(f.hits_taken, 14);
}
