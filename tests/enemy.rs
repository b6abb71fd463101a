use rand::{Rng, SeedableRng};
use space_defender::enemy::{EnemySprite, ENEMY_SPEED};
use space_defender::{update_enemy, update_enemy_with_roll, Enemy, Laser, LaserSprite, Point, Rect};

fn degrees(enemy: &Enemy) -> f64 {
    let aim = enemy.angle();
    let d = (aim.y() as f64).atan2(aim.x() as f64).to_degrees();
    (d + 360.0) % 360.0
}

#[test]
fn aim_is_the_bearing_to_the_player() {
    let placements = [
        ((300, 0), 0.0),
        ((300, 300), 45.0),
        ((0, 300), 90.0),
        ((-300, 300), 135.0),
        ((-300, 0), 180.0),
        ((-300, -300), 225.0),
        ((0, -300), 270.0),
        ((300, -300), 315.0),
    ];
    for ((dx, dy), bearing) in placements {
        let enemy = Enemy::new(Point::new(1000, 1000));
        let mut lasers = Vec::new();
        let moved = update_enemy_with_roll(&enemy, Point::new(1000 + dx, 1000 + dy), &mut lasers, 0);
        assert_eq!((moved.angle().x(), moved.angle().y()), (dx as i64, dy as i64));
        assert!((degrees(&moved) - bearing).abs() < 1e-9, "{} {}", degrees(&moved), bearing);
    }
}

#[test]
fn enemy_within_stopping_radius_holds_still_but_aims() {
    let enemy = Enemy::new(Point::new(0, 0));
    let mut lasers = Vec::new();
    let after = update_enemy_with_roll(&enemy, Point::new(0, 150), &mut lasers, 0);
    assert_eq!(after.position(), Point::new(0, 0));
    assert_eq!((after.angle().x(), after.angle().y()), (0, 150));
    // 199.99 away: still within
    let near = update_enemy_with_roll(&enemy, Point::new(120, 159), &mut lasers, 0);
    assert_eq!(near.position(), Point::new(0, 0));
    assert!(lasers.is_empty());
}

#[test]
fn enemy_outside_stopping_radius_closes_in() {
    let enemy = Enemy::new(Point::new(0, 0));
    let mut lasers = Vec::new();
    let after = update_enemy_with_roll(&enemy, Point::new(200, 0), &mut lasers, 0);
    assert_eq!(after.position(), Point::new(ENEMY_SPEED as i32, 0));
    let diagonal = update_enemy_with_roll(&enemy, Point::new(-500, 500), &mut lasers, 0);
    assert_eq!(diagonal.position(), Point::new(-7, 7));
    let steep = update_enemy_with_roll(&enemy, Point::new(300, 400), &mut lasers, 0);
    assert_eq!(steep.position(), Point::new(6, 8));
}

#[test]
fn high_roll_fires_at_the_player() {
    let enemy = Enemy::new(Point::new(10, 20));
    let mut lasers = vec![Laser::new(Point::new(0, 0), enemy.angle(), LaserSprite::Green)];
    update_enemy_with_roll(&enemy, Point::new(10, 20), &mut lasers, 95);
    assert_eq!(lasers.len(), 1);
    update_enemy_with_roll(&enemy, Point::new(10, 520), &mut lasers, 96);
    assert_eq!(lasers.len(), 2);
    let shot = lasers[1];
    assert_eq!(shot.color(), LaserSprite::Red);
    assert_eq!(shot.position(), Point::new(10, 20));
    assert_eq!((shot.angle().x(), shot.angle().y()), (0, 500));
}

#[test]
fn fire_rate_is_four_percent() {
    let mut rng = rand::rngs::StdRng::seed_from_u64(0x5eed);
    let enemy = Enemy::new(Point::new(0, 0));
    let mut lasers = Vec::new();
    let mut fired = 0u32;
    for _ in 0..100_000 {
        let roll: u32 = rng.gen_range(0..100);
        update_enemy_with_roll(&enemy, Point::new(1000, 0), &mut lasers, roll);
        fired += lasers.len() as u32;
        lasers.clear();
    }
    let rate = fired as f64 / 100_000.0;
    assert!((rate - 0.04).abs() < 0.004, "{}", rate);
}

#[test]
fn random_update_moves_like_the_rolled_one() {
    let enemy = Enemy::new(Point::new(0, 0));
    let mut lasers = Vec::new();
    for _ in 0..200 {
        let after = update_enemy(&enemy, Point::new(0, -1000), &mut lasers);
        assert_eq!(after.position(), Point::new(0, -10));
    }
    assert!(lasers.len() < 200);
    for shot in &lasers {
        assert_eq!((shot.angle().x(), shot.angle().y()), (0, -1000));
    }
}

#[test]
fn enemy_sprites() {
    assert_eq!(EnemySprite::Stationary.get_src_rect(), Rect::new(48, 0, 16, 16));
    assert_eq!(EnemySprite::Moving.get_src_rect(), Rect::new(64, 0, 16, 16));
    let enemy = Enemy::new(Point::new(500, 500));
    assert_eq!(enemy.get_src_rect(), Rect::new(48, 0, 16, 16));
    assert_eq!(enemy.get_dst_rect(Point::new(0, 0)), Rect::new(476, 476, 48, 48));
    assert_eq!((enemy.angle().x(), enemy.angle().y()), (1, 0));
}
