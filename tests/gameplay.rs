use topdown_shooter::bullet::{move_bullet, move_bullets, Bullet, BULLET_SPEED};
use topdown_shooter::player::{aim, move_player, Facing, Keys, Player, Position, PLAYER_SPEED};
use topdown_shooter::weapon::{shoot, FireRate, FIRE_INTERVAL_NS};
use topdown_shooter::world::{FrameInput, World};

const MS: u64 = 1_000_000;
const UNIT: i64 = 1_000_000_000;

fn keys(up: bool, down: bool, left: bool, right: bool) -> Keys {
    Keys { up, down, left, right }
}

fn no_keys() -> Keys {
    keys(false, false, false, false)
}

fn held(fire: bool) -> FrameInput {
    FrameInput { keys: no_keys(), fire_held: fire, cursor: None }
}

#[test]
fn diagonal_moves_both_axes() {
    let cases = [
        (keys(true, false, false, true), 45, 45),
        (keys(true, false, true, false), -45, 45),
        (keys(false, true, false, true), 45, -45),
        (keys(false, true, true, false), -45, -45),
    ];
    for (k, dx, dy) in cases {
        let mut p = Player::spawn();
        move_player(&mut p, k, 500 * MS);
        assert_eq!(p.position, Position { x: dx * UNIT, y: dy * UNIT });
    }
}

#[test]
fn single_key_moves_one_axis_only() {
    let cases = [
        (keys(true, false, false, false), 0, 9),
        (keys(false, true, false, false), 0, -9),
        (keys(false, false, true, false), -9, 0),
        (keys(false, false, false, true), 9, 0),
    ];
    for (k, dx, dy) in cases {
        let mut p = Player::spawn();
        move_player(&mut p, k, 100 * MS);
        assert_eq!(p.position, Position { x: dx * UNIT, y: dy * UNIT });
    }
}

#[test]
fn opposite_keys_follow_the_key_order() {
    assert_eq!(keys(true, true, false, false).steps(), (0, 1));
    assert_eq!(keys(false, false, true, true).steps(), (-1, 0));
    assert_eq!(keys(true, true, true, true).steps(), (1, 1));
    assert_eq!(keys(false, true, true, true).steps(), (1, -1));
    assert_eq!(no_keys().steps(), (0, 0));
}

#[test]
fn no_key_keeps_the_player_still() {
    let mut p = Player::spawn();
    p.position = Position { x: 7, y: -3 };
    move_player(&mut p, no_keys(), 250 * MS);
    assert_eq!(p.position, Position { x: 7, y: -3 });
}

#[test]
fn aim_turns_fully_to_the_cursor() {
    let mut p = Player::spawn();
    aim(&mut p, Some(Position { x: 10 * UNIT, y: 0 }));
    assert_eq!(p.facing, Facing { dx: 10 * UNIT as i128, dy: 0 });

    aim(&mut p, Some(Position { x: 0, y: 10 * UNIT }));
    assert_eq!(p.facing, Facing { dx: 0, dy: 10 * UNIT as i128 });

    p.position = Position { x: 3, y: 4 };
    aim(&mut p, Some(Position { x: 0, y: 0 }));
    assert_eq!(p.facing, Facing { dx: -3, dy: -4 });
}

#[test]
fn aim_without_cursor_keeps_rotation() {
    let mut p = Player::spawn();
    aim(&mut p, Some(Position { x: 5, y: 5 }));
    let before = p;
    aim(&mut p, None);
    assert_eq!(p, before);
    let here = p.position;
    aim(&mut p, Some(here));
    assert_eq!(p, before);
}

#[test]
fn cooldown_tick_keeps_the_remainder() {
    let mut fr = FireRate::new(FIRE_INTERVAL_NS);
    assert!(!fr.tick(40 * MS));
    assert_eq!(fr.elapsed(), 40 * MS);
    assert!(fr.tick(110 * MS));
    assert_eq!(fr.elapsed(), 50 * MS);
    assert!(fr.tick(370 * MS));
    assert_eq!(fr.elapsed(), 20 * MS);
    assert_eq!(fr.interval(), FIRE_INTERVAL_NS);
}

#[test]
fn fires_after_one_full_interval() {
    let mut w = World::new();
    w.frame(held(true), 100 * MS);
    assert_eq!(w.bullets.len(), 1);
}

#[test]
fn no_fire_before_the_interval() {
    let mut w = World::new();
    w.frame(held(true), 50 * MS);
    assert_eq!(w.bullets.len(), 0);
}

#[test]
fn two_bullets_in_two_and_a_half_intervals() {
    let mut w = World::new();
    for _ in 0..5 {
        w.frame(held(true), 50 * MS);
    }
    assert_eq!(w.bullets.len(), 2);
    assert_eq!(w.fire_rate.elapsed(), 50 * MS);
}

#[test]
fn one_long_frame_fires_once() {
    let mut w = World::new();
    w.frame(held(true), 250 * MS);
    assert_eq!(w.bullets.len(), 1);
    assert_eq!(w.fire_rate.elapsed(), 50 * MS);
}

#[test]
fn released_button_builds_no_backlog() {
    let mut w = World::new();
    w.frame(held(false), 100 * MS);
    assert_eq!(w.bullets.len(), 0);
    for _ in 0..7 {
        w.frame(held(false), 50 * MS);
    }
    assert_eq!(w.bullets.len(), 0);
    assert_eq!(w.fire_rate.elapsed(), 50 * MS);
    w.frame(held(true), 0);
    assert_eq!(w.bullets.len(), 0);
    w.frame(held(true), 40 * MS);
    assert_eq!(w.bullets.len(), 0);
    w.frame(held(true), 10 * MS);
    assert_eq!(w.bullets.len(), 1);
}

#[test]
fn shoot_fires_from_the_player() {
    let mut fr = FireRate::new(FIRE_INTERVAL_NS);
    let mut p = Player::spawn();
    p.position = Position { x: 2, y: 3 };
    p.facing = Facing { dx: 0, dy: -1 };
    let b = shoot(&mut fr, true, &p, 100 * MS).unwrap();
    assert_eq!(b.origin, Position { x: 2, y: 3 });
    assert_eq!(b.facing, Facing { dx: 0, dy: -1 });
    assert_eq!(b.speed, BULLET_SPEED);
    assert_eq!(b.travelled, 0);
    assert!(shoot(&mut fr, false, &p, 100 * MS).is_none());
}

#[test]
fn frame_fires_along_the_new_aim() {
    let mut w = World::new();
    let input = FrameInput {
        keys: keys(false, false, false, true),
        fire_held: true,
        cursor: Some(Position { x: 9 * UNIT, y: 5 * UNIT }),
    };
    w.frame(input, 100 * MS);
    assert_eq!(w.player.position, Position { x: 9 * UNIT, y: 0 });
    assert_eq!(w.bullets.len(), 1);
    assert_eq!(w.bullets[0].origin, Position { x: 9 * UNIT, y: 0 });
    assert_eq!(w.bullets[0].facing, Facing { dx: 0, dy: 5 * UNIT as i128 });
    assert_eq!(w.bullets[0].travelled, 0);
    w.frame(held(false), 20 * MS);
    assert_eq!(w.bullets[0].travelled, 20 * UNIT as u64);
}

#[test]
fn bullet_moves_speed_times_time() {
    let mut b = Bullet::fired_by(&Player::spawn());
    move_bullet(&mut b, 30 * MS);
    move_bullet(&mut b, 70 * MS);
    assert_eq!(b.travelled, 100 * UNIT as u64);
    assert_eq!(b.origin, Position { x: 0, y: 0 });
    assert_eq!(b.facing, Facing { dx: 1, dy: 0 });
    assert_eq!(PLAYER_SPEED, 90);
}

#[test]
fn zero_time_leaves_bullets_in_place() {
    let mut b = Bullet::fired_by(&Player::spawn());
    move_bullet(&mut b, 10 * MS);
    let mut bullets = vec![b, Bullet::fired_by(&Player::spawn())];
    let before = bullets.clone();
    move_bullets(&mut bullets, 0);
    assert_eq!(bullets, before);
}

#[test]
fn zero_interval_completes_every_tick() {
    let mut fr = FireRate::new(0);
    assert!(fr.tick(0));
    assert_eq!(fr.elapsed(), 0);
    assert!(fr.tick(30 * MS));
    assert_eq!(fr.elapsed(), 0);
}
