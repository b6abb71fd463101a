//! Lasers: a fixed heading, a lifetime counted down each tick, and a swept
//! hit test over the segment travelled in the last tick.
use vstd::prelude::*;

use crate::geometry::{moved, segment_hits_rect, segment_meets_rect, Point, Rect};
use crate::heading::{advanced, step_along, Heading};
use crate::{sprite_box, sprite_dst_rect, SPRITE_HEIGHT, SPRITE_WIDTH};

verus! {

/// Speed of the player's lasers, in screen units per tick.
pub const GREEN_LASER_SPEED: u32 = 60;

/// Speed of the enemies' lasers, in screen units per tick.
pub const RED_LASER_SPEED: u32 = 30;

/// How many ticks a new laser lives.
pub const LIFETIME: u32 = 40;

/// The colour of a laser, which tells who fired it: green for the player,
/// red for the enemies.
#[derive(Debug, Clone, Copy, PartialEq, Eq, Structural)]
pub enum LaserSprite {
    Green,
    Red,
}

pub open spec fn laser_speed(color: LaserSprite) -> int {
    match color {
        LaserSprite::Green => GREEN_LASER_SPEED as int,
        LaserSprite::Red => RED_LASER_SPEED as int,
    }
}

impl LaserSprite {
    pub open spec fn src_rect(self) -> Rect {
        Rect {
            x: if self == LaserSprite::Green { 32 } else { 80 },
            y: 0,
            width: SPRITE_WIDTH,
            height: SPRITE_HEIGHT,
        }
    }

    /// Where the sprite lies in the sprite sheet.
    pub fn get_src_rect(&self) -> (r: Rect)
        ensures
            r == self.src_rect(),
    {
        let x: i32 = match self {
            LaserSprite::Green => 32,
            LaserSprite::Red => 80,
        };
        Rect::new(x, 0, SPRITE_WIDTH, SPRITE_HEIGHT)
    }

    fn speed(&self) -> (r: u32)
        ensures
            r == laser_speed(*self),
    {
        match self {
            LaserSprite::Green => GREEN_LASER_SPEED,
            LaserSprite::Red => RED_LASER_SPEED,
        }
    }
}

/// What a `Laser` holds, as plain values.
pub struct LaserView {
    pub color: LaserSprite,
    pub position: Point,
    /// Where the laser was before its last move.
    pub old_position: Point,
    pub heading: (int, int),
    /// Ticks left to live.
    pub lifetime: nat,
}

/// A laser in flight.
#[derive(Debug, Clone, Copy, PartialEq, Eq)]
pub struct Laser {
    color: LaserSprite,
    position: Point,
    old_position: Point,
    heading: Heading,
    lifetime: u32,
}

impl View for Laser {
    type V = LaserView;

    closed spec fn view(&self) -> LaserView {
        LaserView {
            color: self.color,
            position: self.position,
            old_position: self.old_position,
            heading: self.heading@,
            lifetime: self.lifetime as nat,
        }
    }
}

/// The lasers' plain values, in order.
pub open spec fn laser_views(lasers: Seq<Laser>) -> Seq<LaserView> {
    lasers.map_values(|l: Laser| l@)
}

/// A new laser of `color` at `position` flying along `heading`.
pub open spec fn fresh_laser(position: Point, heading: (int, int), color: LaserSprite) -> LaserView {
    LaserView { color, position, old_position: position, heading, lifetime: LIFETIME as nat }
}

/// The laser after one tick: gone when its lifetime runs out, otherwise one
/// tick older and moved one step along its heading, remembering where it was.
pub open spec fn laser_tick(l: LaserView) -> Option<LaserView> {
    if l.lifetime <= 1 {
        None
    } else {
        Some(
            LaserView {
                lifetime: (l.lifetime - 1) as nat,
                old_position: l.position,
                position: advanced(l.position, laser_speed(l.color), l.heading),
                ..l
            },
        )
    }
}

/// The segment that the laser travelled in its last tick, shifted by
/// `center_screen`, meets `rect`.
pub open spec fn laser_hits(l: LaserView, center_screen: Point, rect: Rect) -> bool {
    segment_meets_rect(
        moved(l.old_position, center_screen.x as int, center_screen.y as int),
        moved(l.position, center_screen.x as int, center_screen.y as int),
        rect,
    )
}

/// The laser after `n` ticks; `None` once it is gone.
pub open spec fn laser_after(l: LaserView, n: nat) -> Option<LaserView>
    decreases n,
{
    if n == 0 {
        Some(l)
    } else {
        match laser_after(l, (n - 1) as nat) {
            Some(m) => laser_tick(m),
            None => None,
        }
    }
}

proof fn lemma_laser_alive(l: LaserView, n: nat)
    requires
        n < l.lifetime,
    ensures
        laser_after(l, n) matches Some(m) && m.lifetime == l.lifetime - n,
    decreases n,
{
    if n > 0 {
        lemma_laser_alive(l, (n - 1) as nat);
    }
}

/// A laser with a lifetime of `l.lifetime` ticks is still there, that many
/// ticks younger, after each tick before the last, and gone after exactly
/// that many ticks.
pub proof fn lemma_laser_expires(l: LaserView, n: nat)
    requires
        l.lifetime >= 1,
    ensures
        n < l.lifetime ==> (laser_after(l, n) matches Some(m) && m.lifetime == l.lifetime - n),
        laser_after(l, l.lifetime) is None,
{
    if n < l.lifetime {
        lemma_laser_alive(l, n);
    }
    lemma_laser_alive(l, (l.lifetime - 1) as nat);
}

/// Advances a laser by one tick; `None` once its lifetime has run out.
pub fn update_laser(laser: Laser) -> (r: Option<Laser>)
    ensures
        r matches Some(l) ==> laser_tick(laser@) == Some(l@),
        r is None <==> laser_tick(laser@) is None,
{
    let lifetime = if laser.lifetime >= 1 {
        laser.lifetime - 1
    } else {
        0
    };
    if lifetime == 0 {
        return None;
    }
    let position = step_along(laser.position, laser.color.speed(), laser.heading);
    Some(Laser { lifetime, old_position: laser.position, position, ..laser })
}

impl Laser {
    /// A laser of `color` fired from `position` along `heading`, with the full
    /// lifetime.
    pub fn new(position: Point, heading: Heading, color: LaserSprite) -> (r: Laser)
        ensures
            r@ == fresh_laser(position, heading@, color),
    {
        Laser { position, old_position: position, color, heading, lifetime: LIFETIME }
    }

    pub fn position(&self) -> (r: Point)
        ensures
            r == self@.position,
    {
        self.position
    }

    /// The direction the laser flies in.
    pub fn angle(&self) -> (r: Heading)
        ensures
            r@ == self@.heading,
    {
        self.heading
    }

    pub fn color(&self) -> (r: LaserSprite)
        ensures
            r == self@.color,
    {
        self.color
    }

    /// Ticks left to live.
    pub fn lifetime(&self) -> (r: u32)
        ensures
            r == self@.lifetime,
    {
        self.lifetime
    }

    /// Whether the segment travelled in the last tick, shifted by
    /// `center_screen` into screen space, meets `rect`.
    pub fn hit(&self, center_screen: Point, rect: Rect) -> (r: bool)
        ensures
            r == laser_hits(self@, center_screen, rect),
    {
        segment_hits_rect(center_screen.add(self.old_position), center_screen.add(self.position), rect)
    }

    pub fn get_src_rect(&self) -> (r: Rect)
        ensures
            r == self@.color.src_rect(),
    {
        self.color.get_src_rect()
    }

    /// Where the laser is drawn, shifted by `center_screen`.
    pub fn get_dst_rect(&self, center_screen: Point) -> (r: Rect)
        ensures
            r == sprite_box(moved(center_screen, self@.position.x as int, self@.position.y as int)),
    {
        sprite_dst_rect(center_screen, self.position)
    }
}

} // verus!
