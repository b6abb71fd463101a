//! Enemy ships: each tick they turn to face the player, may fire a laser at
//! it, and close in until they are near enough.
use vstd::prelude::*;

use crate::geometry::{moved, Point, Rect};
use crate::heading::{advanced, bearing, step_along, Heading};
use crate::laser::{fresh_laser, laser_views, Laser, LaserSprite, LaserView};
use crate::{sprite_box, sprite_dst_rect, SPRITE_HEIGHT, SPRITE_WIDTH};

verus! {

/// Speed of the enemy ships, in screen units per tick.
pub const ENEMY_SPEED: u32 = 10;

/// The distance to the player below which an enemy stops closing in.
pub const ENEMY_STOPPING_POINT: u32 = 200;

/// Each tick an enemy draws a roll from `0..100` and fires when it is above
/// this threshold: four ticks in a hundred.
pub const FIRE_THRESHOLD: u32 = 95;

/// The sprites of an enemy ship in the sprite sheet.
#[derive(Debug, Clone, Copy, PartialEq, Eq, Structural)]
pub enum EnemySprite {
    Stationary,
    Moving,
}

impl EnemySprite {
    pub open spec fn src_rect(self) -> Rect {
        Rect {
            x: if self == EnemySprite::Moving { 64 } else { 48 },
            y: 0,
            width: SPRITE_WIDTH,
            height: SPRITE_HEIGHT,
        }
    }

    /// Where the sprite lies in the sprite sheet.
    pub fn get_src_rect(&self) -> (r: Rect)
        ensures
            r == self.src_rect(),
    {
        let x: i32 = match self {
            EnemySprite::Stationary => 48,
            EnemySprite::Moving => 64,
        };
        Rect::new(x, 0, SPRITE_WIDTH, SPRITE_HEIGHT)
    }
}

/// What an `Enemy` holds, as plain values.
pub struct EnemyView {
    pub position: Point,
    /// The direction the ship faces.
    pub aim: (int, int),
}

/// An enemy ship.
#[derive(Debug, Clone, Copy, PartialEq, Eq)]
pub struct Enemy {
    position: Point,
    angle: Heading,
}

impl View for Enemy {
    type V = EnemyView;

    closed spec fn view(&self) -> EnemyView {
        EnemyView { position: self.position, aim: self.angle@ }
    }
}

/// The enemies' plain values, in order.
pub open spec fn enemy_views(enemies: Seq<Enemy>) -> Seq<EnemyView> {
    enemies.map_values(|e: Enemy| e@)
}

/// `a` and `b` are less than `ENEMY_STOPPING_POINT` apart.
pub open spec fn within_stopping_radius(a: Point, b: Point) -> bool {
    (a.x - b.x) * (a.x - b.x) + (a.y - b.y) * (a.y - b.y) < ENEMY_STOPPING_POINT
        * ENEMY_STOPPING_POINT
}

/// A roll above the threshold fires.
pub open spec fn fires(roll: int) -> bool {
    roll > FIRE_THRESHOLD
}

/// Of the hundred rolls from `0..100`, exactly four fire: 96 to 99.
pub proof fn lemma_fire_rate()
    ensures
        Set::new(|roll: int| 0 <= roll < 100 && fires(roll)) == set![96int, 97int, 98int, 99int],
        set![96int, 97int, 98int, 99int].len() == 4,
{
    assert(Set::new(|roll: int| 0 <= roll < 100 && fires(roll)) =~= set![96int, 97int, 98int, 99int]);
}

/// The enemy after one tick with the player at `target`: it faces the player,
/// and unless it is within the stopping radius it takes one step that way.
pub open spec fn enemy_tick(e: EnemyView, target: Point) -> EnemyView {
    let aim = bearing(e.position, target);
    let position = if within_stopping_radius(e.position, target) {
        e.position
    } else {
        advanced(e.position, ENEMY_SPEED as int, aim)
    };
    EnemyView { position, aim }
}

/// The laser that the enemy fires at the player at `target`: red, from where
/// the enemy stands, straight at the player.
pub open spec fn enemy_shot(e: EnemyView, target: Point) -> LaserView {
    fresh_laser(e.position, bearing(e.position, target), LaserSprite::Red)
}

/// Relies on rand's `thread_rng` and `Rng::gen_range`: a value drawn from the
/// range `0..100` lies in it.
#[verifier::external_body]
pub(crate) fn roll_percent() -> (r: u32)
    ensures
        r < 100,
{
    rand::Rng::gen_range(&mut rand::thread_rng(), 0..100u32)
}

fn within_stopping_point(a: Point, b: Point) -> (r: bool)
    ensures
        r == within_stopping_radius(a, b),
{
    let dx: i64 = a.x as i64 - b.x as i64;
    let dy: i64 = a.y as i64 - b.y as i64;
    assert(0 <= dx * dx <= 0x1_0000_0000_0000_0000 && 0 <= dy * dy <= 0x1_0000_0000_0000_0000)
        by (nonlinear_arith)
        requires
            -0x1_0000_0000 <= dx <= 0x1_0000_0000,
            -0x1_0000_0000 <= dy <= 0x1_0000_0000,
    ;
    let d2: i128 = dx as i128 * dx as i128 + dy as i128 * dy as i128;
    let radius: i128 = ENEMY_STOPPING_POINT as i128;
    assert(radius * radius == ENEMY_STOPPING_POINT * ENEMY_STOPPING_POINT) by (nonlinear_arith)
        requires
            radius == ENEMY_STOPPING_POINT,
    ;
    d2 < radius * radius
}

/// Advances an enemy by one tick with the player at `player_pos`, given the
/// tick's roll from `0..100`: a roll above `FIRE_THRESHOLD` appends a laser
/// aimed at the player to `lasers`.
pub fn update_enemy_with_roll(enemy: &Enemy, player_pos: Point, lasers: &mut Vec<Laser>, roll: u32) -> (r:
    Enemy)
    ensures
        r@ == enemy_tick(enemy@, player_pos),
        laser_views(final(lasers)@) == if fires(roll as int) {
            laser_views(old(lasers)@).push(enemy_shot(enemy@, player_pos))
        } else {
            laser_views(old(lasers)@)
        },
{
    let angle = Heading::between(enemy.position, player_pos);
    if roll > FIRE_THRESHOLD {
        let shot = Laser::new(enemy.position, angle, LaserSprite::Red);
        lasers.push(shot);
        proof {
            assert(laser_views(final(lasers)@) =~= laser_views(old(lasers)@).push(shot@));
        }
    }
    let position = if within_stopping_point(enemy.position, player_pos) {
        enemy.position
    } else {
        step_along(enemy.position, ENEMY_SPEED, angle)
    };
    Enemy { position, angle }
}

/// Advances an enemy by one tick with the player at `player_pos`, drawing the
/// tick's roll at random: whatever the draw, the enemy moves as
/// `enemy_tick` says, and `lasers` either stays as it was or gains one laser
/// aimed at the player.
pub fn update_enemy(enemy: &Enemy, player_pos: Point, lasers: &mut Vec<Laser>) -> (r: Enemy)
    ensures
        r@ == enemy_tick(enemy@, player_pos),
        laser_views(final(lasers)@) == laser_views(old(lasers)@) || laser_views(final(lasers)@)
            == laser_views(old(lasers)@).push(enemy_shot(enemy@, player_pos)),
{
    let roll = roll_percent();
    update_enemy_with_roll(enemy, player_pos, lasers, roll)
}

impl Enemy {
    /// An enemy at `position`, facing along the positive x axis.
    pub fn new(position: Point) -> (r: Enemy)
        ensures
            r@ == (EnemyView { position, aim: (1, 0) }),
    {
        Enemy { position, angle: Heading::east() }
    }

    pub fn position(&self) -> (r: Point)
        ensures
            r == self@.position,
    {
        self.position
    }

    /// The direction the ship faces.
    pub fn angle(&self) -> (r: Heading)
        ensures
            r@ == self@.aim,
    {
        self.angle
    }

    pub fn get_src_rect(&self) -> (r: Rect)
        ensures
            r == EnemySprite::Stationary.src_rect(),
    {
        EnemySprite::Stationary.get_src_rect()
    }

    /// Where the ship is drawn, shifted by `center_screen`; also the target
    /// that the player's lasers must meet.
    pub fn get_dst_rect(&self, center_screen: Point) -> (r: Rect)
        ensures
            r == sprite_box(moved(center_screen, self@.position.x as int, self@.position.y as int)),
    {
        sprite_dst_rect(center_screen, self.position)
    }
}

} // verus!
