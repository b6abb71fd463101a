//! The simulation core of a small 2D space-combat arcade game: a player ship
//! with thrust and rotation, lasers with a lifetime and a swept hit test, and
//! enemy ships that chase and shoot at the player.
use vstd::prelude::*;

pub mod enemy;
pub mod geometry;
pub mod heading;
pub mod laser;
pub mod player;
pub mod world;

pub use enemy::{update_enemy, update_enemy_with_roll, Enemy, EnemySprite};
pub use geometry::{Point, Rect};
pub use heading::{Heading, HeadingTable};
pub use laser::{update_laser, Laser, LaserSprite};
pub use player::{update_player, Player, PlayerSprite};
pub use world::{handle_input, update, update_with_rolls, Control, Key};

verus! {

/// Width of one sprite in the sprite sheet, in pixels.
pub const SPRITE_WIDTH: u32 = 16;

/// Height of one sprite in the sprite sheet, in pixels.
pub const SPRITE_HEIGHT: u32 = 16;

/// How many screen pixels one sprite pixel covers.
pub const SCALE: u32 = 3;

/// The screen rectangle of a scaled sprite centred on `center`.
pub open spec fn sprite_box(center: Point) -> Rect {
    Rect {
        x: geometry::clamp_i32(center.x - (SCALE * SPRITE_WIDTH) / 2) as i32,
        y: geometry::clamp_i32(center.y - (SCALE * SPRITE_HEIGHT) / 2) as i32,
        width: (SCALE * SPRITE_WIDTH) as u32,
        height: (SCALE * SPRITE_HEIGHT) as u32,
    }
}

/// Where a sprite at `position` is drawn: a scaled sprite centred on the
/// position shifted by `center_screen`.
pub fn sprite_dst_rect(center_screen: Point, position: Point) -> (r: Rect)
    ensures
        r == sprite_box(geometry::moved(center_screen, position.x as int, position.y as int)),
{
    Rect::from_center(center_screen.add(position), SCALE * SPRITE_WIDTH, SCALE * SPRITE_HEIGHT)
}

} // verus!
