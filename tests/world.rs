use space_defender::heading::FULL_TURN;
use space_defender::{
    handle_input, update, update_with_rolls, Control, Enemy, Heading, HeadingTable, Key, Laser, LaserSprite,
    Player, Point,
};

fn compass() -> HeadingTable {
    let unit = (1i64 << 30) as f64;
    let headings = (0..FULL_TURN)
        .map(|k| {
            let radians = (k as f64 / 2.0).to_radians();
            Heading::new((radians.cos() * unit).round() as i64, (radians.sin() * unit).round() as i64).unwrap()
        })
        .collect();
    HeadingTable::new(headings).unwrap()
}

#[test]
fn laser_crossing_an_enemy_destroys_it_before_it_acts() {
    let table = compass();
    let mut player = Player::default();
    // the laser flies from x = 470 to x = 530 this tick, right through the
    // enemy's box (x from 476 to 523) without ending inside it
    let lasers = vec![Laser::new(Point::new(470, 0), table.get(0), LaserSprite::Green)];
    let enemies = vec![Enemy::new(Point::new(500, 0)), Enemy::new(Point::new(0, 800))];
    let (lasers, enemies, enemy_lasers) =
        update_with_rolls(&mut player, &lasers, &enemies, &Vec::new(), Point::new(0, 0), &table, &vec![99, 0]);
    assert_eq!(lasers.len(), 1);
    assert_eq!(lasers[0].position(), Point::new(530, 0));
    assert_eq!(enemies.len(), 1);
    assert_eq!(enemies[0].position(), Point::new(0, 790));
    assert!(enemy_lasers.is_empty());
}

#[test]
fn surviving_enemy_fires_and_moves() {
    let table = compass();
    let mut player = Player::default();
    let enemies = vec![Enemy::new(Point::new(0, 800))];
    let old_shot = Laser::new(Point::new(0, 0), table.get(0), LaserSprite::Red);
    let (lasers, enemies, enemy_lasers) =
        update_with_rolls(&mut player, &Vec::new(), &enemies, &vec![old_shot], Point::new(960, 540), &table, &vec![99]);
    assert!(lasers.is_empty());
    assert_eq!(enemies[0].position(), Point::new(0, 790));
    assert_eq!((enemies[0].angle().x(), enemies[0].angle().y()), (0, -800));
    assert_eq!(enemy_lasers.len(), 2);
    assert_eq!(enemy_lasers[0].position(), Point::new(30, 0));
    assert_eq!(enemy_lasers[1].position(), Point::new(0, 800));
    assert_eq!((enemy_lasers[1].angle().x(), enemy_lasers[1].angle().y()), (0, -800));
}

#[test]
fn expired_lasers_leave_the_game() {
    let table = compass();
    let mut player = Player::default();
    let mut lasers = vec![Laser::new(Point::new(0, 0), table.get(0), LaserSprite::Green)];
    let mut enemy_lasers = Vec::new();
    let mut enemies = Vec::new();
    for _ in 1..40 {
        let next = update_with_rolls(&mut player, &lasers, &enemies, &enemy_lasers, Point::new(0, 0), &table, &vec![]);
        lasers = next.0;
        enemies = next.1;
        enemy_lasers = next.2;
        assert_eq!(lasers.len(), 1);
    }
    let next = update_with_rolls(&mut player, &lasers, &enemies, &enemy_lasers, Point::new(0, 0), &table, &vec![]);
    assert!(next.0.is_empty());
}

#[test]
fn player_moves_before_enemies_aim() {
    let table = compass();
    let mut player = Player::default();
    player.set_speed(20);
    let enemies = vec![Enemy::new(Point::new(0, 500))];
    let (_, enemies, _) = update_with_rolls(&mut player, &Vec::new(), &enemies, &Vec::new(), Point::new(0, 0), &table, &vec![0]);
    assert_eq!(player.position(), Point::new(19, 0));
    assert_eq!((enemies[0].angle().x(), enemies[0].angle().y()), (19, -500));
}

#[test]
fn random_tick_moves_everything() {
    let table = compass();
    let mut player = Player::default();
    let enemies = vec![Enemy::new(Point::new(1000, 0)), Enemy::new(Point::new(-1000, 0))];
    let (lasers, enemies, enemy_lasers) =
        update(&mut player, &Vec::new(), &enemies, &Vec::new(), Point::new(0, 0), &table);
    assert!(lasers.is_empty());
    assert_eq!(enemies[0].position(), Point::new(990, 0));
    assert_eq!(enemies[1].position(), Point::new(-990, 0));
    assert!(enemy_lasers.len() <= 2);
}

#[test]
fn keys_set_flags_and_fire() {
    let table = compass();
    let mut player = Player::default();
    let mut lasers = Vec::new();
    assert!(handle_input(&mut player, &mut lasers, Control::KeyDown(Key::Up), &table));
    assert!(player.thrusters());
    assert!(handle_input(&mut player, &mut lasers, Control::KeyDown(Key::Left), &table));
    assert!(handle_input(&mut player, &mut lasers, Control::KeyDown(Key::Right), &table));
    assert!(player.rotating_left() && player.rotating_right());
    assert!(handle_input(&mut player, &mut lasers, Control::KeyUp(Key::Left), &table));
    assert!(handle_input(&mut player, &mut lasers, Control::KeyUp(Key::Up), &table));
    assert!(!player.rotating_left() && player.rotating_right() && !player.thrusters());
    player.set_angle(180);
    player.set_position(Point::new(3, 4));
    assert!(handle_input(&mut player, &mut lasers, Control::KeyDown(Key::Space), &table));
    assert_eq!(lasers.len(), 1);
    assert_eq!(lasers[0].position(), Point::new(3, 4));
    assert_eq!(lasers[0].color(), LaserSprite::Green);
    assert_eq!(lasers[0].angle(), table.get(180));
    assert!(handle_input(&mut player, &mut lasers, Control::KeyUp(Key::Other), &table));
    assert_eq!(lasers.len(), 1);
}

#[test]
fn quit_and_escape_end_the_game() {
    let table = compass();
    let mut player = Player::default();
    let mut lasers = Vec::new();
    assert!(!handle_input(&mut player, &mut lasers, Control::Quit, &table));
    assert!(!handle_input(&mut player, &mut lasers, Control::KeyDown(Key::Escape), &table));
    assert!(handle_input(&mut player, &mut lasers, Control::KeyUp(Key::Escape), &table));
}
