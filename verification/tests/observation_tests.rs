use pyzalea::arena::FastArena;
use pyzalea::fighter::Fighter;
use pyzalea::fixed::UNIT;
use pyzalea::params::OBS_LEN;

const ONE: i64 = UNIT;

#[test]
fn the_observations_after_a_reset() {
    let mut arena = FastArena::new(32 * UNIT, 2400);
    arena.reset(8 * UNIT);
    let first = arena.get_obs1();
    let second = arena.get_obs2();
    assert_eq!(
        first,
        vec![
            -125_000, 0, 0, 0, 0, 0, ONE, ONE, ONE, -500_000, 0, ONE, 0, 250_000, 0, 0, 250_000,
            ONE, 500_000, 0, 0, 0, ONE, 0, 0, 0, 0, 0, 0, 0, ONE,
        ]
    );
    assert_eq!(
        second,
        vec![
            125_000, 0, 0, 0, 0, 0, ONE, ONE, ONE, 500_000, 0, ONE, 0, -250_000, 0, 0, 250_000,
            ONE, -500_000, 0, 0, 0, ONE, 0, 0, 0, 0, 0, 0, 0, ONE,
        ]
    );
}

#[test]
fn an_observation_has_a_fixed_length() {
    let arena = FastArena::new(32 * UNIT, 2400);
    assert_eq!(arena.get_obs1().len(), OBS_LEN);
    assert_eq!(arena.get_obs2().len(), 31);
}

#[test]
fn the_observations_mirror_each_other_after_any_reset() {
    let distances = [1, 2, 3, UNIT, 7 * UNIT + 1, 31 * UNIT, 64 * UNIT, 1_000 * UNIT, i64::MAX];
    for d in distances {
        let mut arena = FastArena::new(32 * UNIT, 2400);
        arena.reset(d);
        let first = arena.get_obs1();
        let second = arena.get_obs2();
        let mut i = 0;
        while i < OBS_LEN {
            if i == 0 || i == 9 || i == 13 || i == 18 {
                assert_eq!(second[i], -first[i]);
            } else {
                assert_eq!(second[i], first[i]);
            }
            i += 1;
        }
        assert_eq!(first[9], -500_000);
        assert_eq!(first[18], if d >= 2 { 500_000 } else { 0 });
    }
}

#[test]
fn the_heading_from_the_foe_is_computed_anew_from_each_side() {
    let mut arena = FastArena::new(32 * UNIT, 2400);
    arena.fighter1.x = UNIT;
    arena.fighter1.z = UNIT;
    arena.fighter2.x = 3 * UNIT;
    arena.fighter2.z = 5 * UNIT;
    // offsets (2, 4) and (-2, -4): the headings are no mirror images
    let first = arena.get_obs1();
    let second = arena.get_obs2();
    assert_eq!(first[18], (180 * UNIT - 26_565_051) / 180);
    assert_eq!(second[18], -26_565_051 / 180);
    assert_eq!(first[13], 62_500);
    assert_eq!(second[13], -62_500);
    assert_eq!(first[15], 125_000);
    assert_eq!(second[15], -125_000);
}

#[test]
fn the_second_view_is_the_first_view_of_the_swapped_match() {
    let mut arena = FastArena::new(32 * UNIT, 2400);
    arena.reset(5 * UNIT);
    arena.fighter1.health = 3 * UNIT;
    arena.fighter2.vy = 77;
    arena.fighter2.eating = true;
    let mut swapped = arena;
    swapped.fighter1 = arena.fighter2;
    swapped.fighter2 = arena.fighter1;
    assert_eq!(arena.get_obs2(), swapped.get_obs1());
    assert_eq!(arena.get_obs1(), swapped.get_obs2());
    assert_eq!(arena.get_obs(&arena.fighter2, &arena.fighter1), arena.get_obs2());
}

#[test]
fn every_entry_of_an_observation() {
    let arena = FastArena::new(32 * UNIT, 2400);
    let mut me = Fighter::new();
    me.x = -8 * UNIT;
    me.y = 2 * UNIT;
    me.z = 4 * UNIT;
    me.vx = 111;
    me.vy = -222;
    me.vz = 333;
    me.health = 15 * UNIT;
    me.food = 5 * UNIT;
    me.attack_cooldown = 4;
    me.yaw = 45 * UNIT;
    me.pitch = -45 * UNIT;
    me.on_ground = false;
    me.sprinting = true;
    me.damage_dealt = 12 * UNIT;
    me.damage_taken = 6 * UNIT;
    me.hits_landed = 5;
    me.hits_taken = 10;
    me.eating = true;
    me.eating_ticks = 16;
    me.steaks = 32;
    let mut foe = Fighter::new();
    foe.x = -8 * UNIT;
    foe.y = 6 * UNIT;
    foe.z = 7 * UNIT;
    foe.vx = -1;
    foe.vy = -2;
    foe.vz = -3;
    foe.health = 10 * UNIT;
    foe.eating = true;
    let obs = arena.get_obs(&me, &foe);
    assert_eq!(
        obs,
        vec![
            -250_000,
            62_500,
            125_000,
            111,
            -222,
            333,
            750_000,
            250_000,
            600_000,
            250_000,
            -500_000,
            0,
            ONE,
            0,
            250_000,
            93_750,
            // the foe is 5 blocks away: 5 / 32
            156_250,
            500_000,
            // the offset is (0, 3): the foe would look along -z, a half turn
            ONE,
            -1,
            -2,
            -3,
            ONE,
            300_000,
            150_000,
            250_000,
            500_000,
            ONE,
            500_000,
            ONE,
            500_000,
        ]
    );
}

#[test]
fn the_distance_entry_is_capped_at_one() {
    let arena = FastArena::new(1_000 * UNIT, 2400);
    let me = Fighter::new();
    let mut foe = Fighter::new();
    foe.x = 32 * UNIT - 1;
    assert_eq!(arena.get_obs(&me, &foe)[16], 999_999);
    foe.x = 32 * UNIT;
    assert_eq!(arena.get_obs(&me, &foe)[16], ONE);
    foe.x = 500 * UNIT;
    assert_eq!(arena.get_obs(&me, &foe)[16], ONE);
    assert_eq!(arena.get_obs(&me, &foe)[13], 15_625_000);
    foe.x = 0;
    foe.y = i64::MAX;
    assert_eq!(arena.get_obs(&me, &foe)[16], ONE);
}

#[test]
fn the_cooldown_entry_runs_from_zero_to_one() {
    let mut f = Fighter::new();
    assert_eq!(f.cooldown_progress(), ONE);
    f.attack_cooldown = 10;
    assert_eq!(f.cooldown_progress(), 0);
    f.attack_cooldown = 9;
    assert_eq!(f.cooldown_progress(), 100_000);
    f.attack_cooldown = 1;
    assert_eq!(f.cooldown_progress(), 900_000);
    f.attack_cooldown = 3;
    assert_eq!(f.cooldown_progress(), 700_000);
    f.attack_cooldown = 20;
    assert_eq!(f.cooldown_progress(), -ONE);
    f.attack_cooldown = u32::MAX;
    assert_eq!(f.cooldown_progress(), ONE - 429_496_729_500_000);
}

#[test]
fn an_observation_takes_extreme_states() {
    let arena = FastArena::new(32 * UNIT, 2400);
    let mut me = Fighter::new();
    me.x = i64::MIN;
    me.y = i64::MIN;
    me.z = i64::MAX;
    me.health = i64::MIN;
    me.food = i64::MAX;
    me.yaw = i64::MIN;
    me.hits_landed = u32::MAX;
    me.steaks = u32::MAX;
    me.eating_ticks = u32::MAX;
    let mut foe = Fighter::new();
    foe.x = i64::MAX;
    foe.y = i64::MAX;
    foe.z = i64::MIN;
    let obs = arena.get_obs(&me, &foe);
    assert_eq!(obs.len(), OBS_LEN);
    assert_eq!(obs[0], i64::MIN / 32);
    assert_eq!(obs[6], i64::MIN / 20);
    assert_eq!(obs[7], i64::MAX / 20);
    assert_eq!(obs[13], ((i64::MAX as i128 - i64::MIN as i128) / 32) as i64);
    assert_eq!(obs[14], ((i64::MAX as i128 - i64::MIN as i128) / 16) as i64);
    assert_eq!(obs[16], ONE);
    // the offset is (+, -) with equal legs: the foe would look along 45 degrees
    assert_eq!(obs[18], 250_000);
    assert_eq!(obs[25], 214_748_364_750_000);
    assert_eq!(obs[30], (u32::MAX as i64) * UNIT / 64);
}
