use pig_farm::{
    Coord, Countdown, Direction, HeldKeys, Money, Position, World, DRIFT_SPEED, PIG_LIFETIME,
    PIG_PAYOUT, PIG_PRICE, PLAYER_SPEED, STARTING_BALANCE,
};

const FRAME: u64 = 16_000_000;

fn keys(up: bool, down: bool, left: bool, right: bool) -> HeldKeys {
    HeldKeys { up, down, left, right }
}

fn at(ax: i64, dx: i64, ay: i64, dy: i64) -> Position {
    Position { x: Coord { axial: ax, diagonal: dx }, y: Coord { axial: ay, diagonal: dy } }
}

#[test]
fn setup_starts_with_balance_and_no_pigs() {
    let w = World::setup();
    assert_eq!(w.money, Money(100));
    assert_eq!(STARTING_BALANCE, 100);
    assert!(w.pigs.is_empty());
    assert_eq!(w.player.speed, 100);
    assert_eq!(w.player.position, Position::origin());
}

#[test]
fn spend_once_then_sell_after_two_seconds() {
    let mut w = World::setup();
    assert!(w.spawn_pig(true));
    assert_eq!(w.money.0, 90);
    assert_eq!(w.pigs.len(), 1);
    assert_eq!(w.pigs[0].lifetime.elapsed, 0);
    let sold = w.pig_lifetime(2_000_000_000);
    assert_eq!(sold, vec![true]);
    assert!(w.pigs.is_empty());
    assert_eq!(w.money.0, 105);
}

#[test]
fn spend_with_too_little_does_nothing() {
    let mut w = World::setup();
    w.money = Money(5);
    assert!(!w.spawn_pig(true));
    assert_eq!(w.money.0, 5);
    assert!(w.pigs.is_empty());
}

#[test]
fn spend_with_exact_price_leaves_zero() {
    let mut w = World::setup();
    w.money = Money(PIG_PRICE);
    assert!(w.spawn_pig(true));
    assert_eq!(w.money.0, 0);
    assert_eq!(w.pigs.len(), 1);
}

#[test]
fn spend_just_below_price_keeps_balance_and_pigs() {
    let mut w = World::setup();
    assert!(w.spawn_pig(true));
    w.money = Money(PIG_PRICE - 1);
    assert!(!w.spawn_pig(true));
    assert_eq!(w.money.0, 9);
    assert_eq!(w.pigs.len(), 1);
}

#[test]
fn no_spend_without_key_press() {
    let mut w = World::setup();
    assert!(!w.spawn_pig(false));
    assert_eq!(w.money.0, 100);
    assert!(w.pigs.is_empty());
}

#[test]
fn pig_appears_where_player_stands() {
    let mut w = World::setup();
    w.player.position = at(7, -3, 11, 5);
    assert!(w.spawn_pig(true));
    assert_eq!(w.pigs[0].position, at(7, -3, 11, 5));
    assert_eq!(w.pigs[0].lifetime, Countdown { elapsed: 0, duration: PIG_LIFETIME });
}

#[test]
fn lifetime_grows_until_sold_once() {
    let mut w = World::setup();
    assert!(w.spawn_pig(true));
    let half: u64 = 500_000_000;
    let mut last: u64 = 0;
    for _ in 0..3 {
        assert_eq!(w.pig_lifetime(half), vec![false]);
        assert!(w.pigs[0].lifetime.elapsed > last);
        last = w.pigs[0].lifetime.elapsed;
        assert_eq!(w.money.0, 90);
    }
    assert_eq!(last, 1_500_000_000);
    assert_eq!(w.pig_lifetime(half), vec![true]);
    assert!(w.pigs.is_empty());
    assert_eq!(w.money.0, 90 + PIG_PAYOUT);
    assert_eq!(w.pig_lifetime(half), Vec::<bool>::new());
    assert_eq!(w.money.0, 105);
}

#[test]
fn only_expiring_pigs_are_sold() {
    let mut w = World::setup();
    assert!(w.spawn_pig(true));
    w.pig_lifetime(1_000_000_000);
    assert!(w.spawn_pig(true));
    assert_eq!(w.money.0, 80);
    let sold = w.pig_lifetime(1_200_000_000);
    assert_eq!(sold, vec![true, false]);
    assert_eq!(w.pigs.len(), 1);
    assert_eq!(w.pigs[0].lifetime.elapsed, 1_200_000_000);
    assert_eq!(w.money.0, 95);
}

#[test]
fn payout_saturates_at_the_largest_balance() {
    let mut w = World::setup();
    assert!(w.spawn_pig(true));
    w.money = Money(i64::MAX - 3);
    w.pig_lifetime(PIG_LIFETIME);
    assert_eq!(w.money.0, i64::MAX);
}

#[test]
fn drift_over_frames_moves_along_the_diagonal() {
    let mut w = World::setup();
    assert!(w.spawn_pig(true));
    for _ in 0..3 {
        w.pig_move(FRAME);
    }
    let d = 3 * FRAME as i64 * DRIFT_SPEED as i64;
    assert_eq!(d, 480_000_000);
    assert_eq!(w.pigs[0].position, at(0, d, 0, d));
    assert_eq!(w.pigs[0].lifetime.elapsed, 0);
    assert_eq!(w.player.position, Position::origin());
}

#[test]
fn drift_moves_each_pig_alike() {
    let mut w = World::setup();
    assert!(w.spawn_pig(true));
    w.player.position = at(5, 0, -5, 0);
    assert!(w.spawn_pig(true));
    w.pig_move(1_000_000_000);
    assert_eq!(w.pigs[0].position, at(0, 10_000_000_000, 0, 10_000_000_000));
    assert_eq!(w.pigs[1].position, at(5, 10_000_000_000, -5, 10_000_000_000));
}

#[test]
fn direction_sums_held_keys() {
    assert_eq!(keys(false, false, false, false).direction(), Direction { x: 0, y: 0 });
    assert_eq!(keys(true, false, false, true).direction(), Direction { x: 1, y: 1 });
    assert_eq!(keys(false, true, true, false).direction(), Direction { x: -1, y: -1 });
    assert_eq!(keys(true, true, true, true).direction(), Direction { x: 0, y: 0 });
    assert_eq!(keys(true, true, false, true).direction(), Direction { x: 1, y: 0 });
}

#[test]
fn walking_straight_moves_speed_times_time() {
    let mut w = World::setup();
    w.character_movement(keys(false, false, false, true), FRAME);
    let step = PLAYER_SPEED as i64 * FRAME as i64;
    assert_eq!(step, 1_600_000_000);
    assert_eq!(w.player.position, at(step, 0, 0, 0));
    w.character_movement(keys(false, true, false, false), FRAME);
    assert_eq!(w.player.position, at(step, 0, -step, 0));
}

#[test]
fn walking_diagonally_uses_unit_length() {
    let mut w = World::setup();
    w.character_movement(keys(true, false, true, false), FRAME);
    assert_eq!(w.player.position, at(0, -1_600_000_000, 0, 1_600_000_000));
    let x = w.player.position.x.diagonal as f64 * std::f64::consts::FRAC_1_SQRT_2;
    let y = w.player.position.y.diagonal as f64 * std::f64::consts::FRAC_1_SQRT_2;
    let len = (x * x + y * y).sqrt();
    assert!((len - 1_600_000_000.0).abs() < 1.0);
}

#[test]
fn opposite_keys_do_not_move() {
    let mut w = World::setup();
    w.character_movement(keys(true, true, true, true), FRAME);
    assert_eq!(w.player.position, Position::origin());
    w.character_movement(keys(false, false, true, true), FRAME);
    assert_eq!(w.player.position, Position::origin());
}

#[test]
fn walking_saturates_at_the_edge() {
    let mut w = World::setup();
    w.player.position = at(i64::MAX - 5, 0, i64::MIN + 5, 0);
    w.character_movement(keys(false, false, false, true), FRAME);
    assert_eq!(w.player.position, at(i64::MAX, 0, i64::MIN + 5, 0));
    w.character_movement(keys(false, true, false, false), FRAME);
    assert_eq!(w.player.position, at(i64::MAX, 0, i64::MIN, 0));
}

#[test]
fn countdown_ticks_and_stops_at_duration() {
    let mut c = Countdown::once(10);
    c.tick(4);
    assert_eq!(c.elapsed, 4);
    assert!(!c.finished());
    c.tick(100);
    assert_eq!(c.elapsed, 10);
    assert!(c.finished());
    c.tick(u64::MAX);
    assert_eq!(c.elapsed, 10);
}
