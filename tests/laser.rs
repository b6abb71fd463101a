use space_defender::laser::LIFETIME;
use space_defender::{update_laser, Heading, Laser, LaserSprite, Point, Rect};

fn east() -> Heading {
    Heading::new(1, 0).unwrap()
}

#[test]
fn laser_lives_exactly_its_lifetime() {
    let mut laser = Laser::new(Point::new(0, 0), east(), LaserSprite::Green);
    assert_eq!(laser.lifetime(), LIFETIME);
    for tick in 1..LIFETIME {
        laser = update_laser(laser).expect("still alive");
        assert_eq!(laser.lifetime(), LIFETIME - tick);
    }
    assert_eq!(laser.lifetime(), 1);
    assert!(update_laser(laser).is_none());
}

#[test]
fn lasers_fly_at_their_colour_speed() {
    let green = update_laser(Laser::new(Point::new(5, 5), east(), LaserSprite::Green)).unwrap();
    assert_eq!(green.position(), Point::new(65, 5));
    let red = update_laser(Laser::new(Point::new(5, 5), east(), LaserSprite::Red)).unwrap();
    assert_eq!(red.position(), Point::new(35, 5));
    let up = Heading::new(0, -2).unwrap();
    let red_up = update_laser(Laser::new(Point::new(0, 0), up, LaserSprite::Red)).unwrap();
    assert_eq!(red_up.position(), Point::new(0, -30));
    assert_eq!(red_up.angle(), up);
    assert_eq!(red_up.color(), LaserSprite::Red);
}

#[test]
fn hit_uses_the_swept_segment() {
    // after one tick the laser went from (0, 0) to (60, 0), past a thin target at x = 30
    let laser = update_laser(Laser::new(Point::new(0, 0), east(), LaserSprite::Green)).unwrap();
    let thin = Rect::new(30, -5, 1, 10);
    assert!(laser.hit(Point::new(0, 0), thin));
    // shifted into screen space by the centre of the screen
    let shifted = Rect::new(130, 95, 1, 10);
    assert!(laser.hit(Point::new(100, 100), shifted));
    assert!(!laser.hit(Point::new(0, 0), shifted));
    // a new laser has not moved: only its own point can hit
    let fresh = Laser::new(Point::new(0, 0), east(), LaserSprite::Green);
    assert!(!fresh.hit(Point::new(0, 0), thin));
    assert!(fresh.hit(Point::new(0, 0), Rect::new(-1, -1, 3, 3)));
}

#[test]
fn laser_sprites() {
    assert_eq!(LaserSprite::Green.get_src_rect(), Rect::new(32, 0, 16, 16));
    assert_eq!(LaserSprite::Red.get_src_rect(), Rect::new(80, 0, 16, 16));
    let laser = Laser::new(Point::new(-10, 4), east(), LaserSprite::Red);
    assert_eq!(laser.get_src_rect(), Rect::new(80, 0, 16, 16));
    assert_eq!(laser.get_dst_rect(Point::new(100, 100)), Rect::new(66, 80, 48, 48));
}
