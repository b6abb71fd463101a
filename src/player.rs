//! The player's ship: speed, heading and position, advanced once per tick.
use vstd::prelude::*;

use crate::geometry::{moved, Point, Rect};
use crate::heading::{advanced, HeadingTable, FULL_TURN};
use crate::{sprite_box, sprite_dst_rect, SPRITE_HEIGHT, SPRITE_WIDTH};

verus! {

/// The top speed of the ship, in screen units per tick.
pub const MAX_SPEED: u32 = 20;

/// Speed gained per tick with the thrusters on.
pub const ACCELERATION: u32 = 3;

/// Speed lost per tick with the thrusters off.
pub const DECELERATION: u32 = 1;

/// Turn per tick, in half-degrees (7 degrees), with the thrusters off; under
/// thrust the ship turns half as fast.
pub const AGILITY: u32 = 14;

/// The sprites of the player's ship in the sprite sheet.
#[derive(Debug, Clone, Copy, PartialEq, Eq, Structural)]
pub enum PlayerSprite {
    Stationary,
    Moving,
}

impl PlayerSprite {
    /// Where the sprite lies in the sprite sheet.
    pub fn get_src_rect(&self) -> (r: Rect)
        ensures
            r == (Rect {
                x: if *self == PlayerSprite::Moving { 16 } else { 0 },
                y: 0,
                width: SPRITE_WIDTH,
                height: SPRITE_HEIGHT,
            }),
    {
        let x: i32 = match self {
            PlayerSprite::Stationary => 0,
            PlayerSprite::Moving => 16,
        };
        Rect::new(x, 0, SPRITE_WIDTH, SPRITE_HEIGHT)
    }
}

/// What a `Player` holds, as plain values.
pub struct PlayerView {
    pub position: Point,
    /// In half-degrees.
    pub angle: nat,
    pub rotating_left: bool,
    pub rotating_right: bool,
    pub thrusters: bool,
    pub speed: nat,
}

/// The player's ship.
pub struct Player {
    position: Point,
    angle: u32,
    rotating_left: bool,
    rotating_right: bool,
    thrusters: bool,
    speed: u32,
}

impl View for Player {
    type V = PlayerView;

    closed spec fn view(&self) -> PlayerView {
        PlayerView {
            position: self.position,
            angle: self.angle as nat,
            rotating_left: self.rotating_left,
            rotating_right: self.rotating_right,
            thrusters: self.thrusters,
            speed: self.speed as nat,
        }
    }
}

/// The bounds that every ship keeps: its speed at most `MAX_SPEED`, its angle
/// below a full turn.
pub open spec fn valid_player(p: PlayerView) -> bool {
    p.speed <= MAX_SPEED && p.angle < FULL_TURN
}

/// The speed after one tick: up by `ACCELERATION` with the thrusters on, to
/// at most `MAX_SPEED`; otherwise down by `DECELERATION`, to at least zero.
pub open spec fn next_speed(p: PlayerView) -> nat {
    if p.thrusters {
        if p.speed + ACCELERATION <= MAX_SPEED {
            (p.speed + ACCELERATION) as nat
        } else {
            MAX_SPEED as nat
        }
    } else if p.speed >= DECELERATION {
        (p.speed - DECELERATION) as nat
    } else {
        0
    }
}

/// How far the ship turns in one tick: half as far under thrust.
pub open spec fn turn_rate(thrusters: bool) -> int {
    if thrusters {
        (AGILITY / 2) as int
    } else {
        AGILITY as int
    }
}

/// The angle after one tick: turned left (down) and then right (up) by the
/// turn rate where those flags are set, wrapped into one turn.
pub open spec fn next_angle(p: PlayerView) -> nat {
    let rate = turn_rate(p.thrusters);
    let a = if p.rotating_left {
        (p.angle - rate) % (FULL_TURN as int)
    } else {
        p.angle as int
    };
    let a = if p.rotating_right {
        (a + rate) % (FULL_TURN as int)
    } else {
        a
    };
    a as nat
}

/// The ship after one tick: new speed and angle, then one step at the new
/// speed along the heading at the new angle.
pub open spec fn player_tick(p: PlayerView, table: Seq<(int, int)>) -> PlayerView {
    let speed = next_speed(p);
    let angle = next_angle(p);
    PlayerView { position: advanced(p.position, speed as int, table[angle as int]), angle, speed, ..p }
}

/// The ship after one tick under each of `controls` in turn; a control sets
/// the thrusters, rotating-left and rotating-right flags before its tick.
pub open spec fn player_run(p: PlayerView, controls: Seq<(bool, bool, bool)>, table: Seq<(int, int)>) -> PlayerView
    decreases controls.len(),
{
    if controls.len() == 0 {
        p
    } else {
        let q = player_run(p, controls.drop_last(), table);
        let (thrusters, rotating_left, rotating_right) = controls.last();
        player_tick(PlayerView { thrusters, rotating_left, rotating_right, ..q }, table)
    }
}

/// Whatever the ticks and the controls between them, a ship whose speed is
/// within `0..=MAX_SPEED` keeps it there: under thrust at the top speed it
/// stays at the top speed, and without thrust it stops at zero.
pub proof fn lemma_speed_stays_bounded(p: PlayerView, controls: Seq<(bool, bool, bool)>, table: Seq<(int, int)>)
    requires
        p.speed <= MAX_SPEED,
    ensures
        player_run(p, controls, table).speed <= MAX_SPEED,
    decreases controls.len(),
{
    if controls.len() > 0 {
        lemma_speed_stays_bounded(p, controls.drop_last(), table);
    }
}

/// Whatever the angle before, a tick that turns the ship leaves its angle
/// within one turn.
pub proof fn lemma_turn_stays_in_range(p: PlayerView, table: Seq<(int, int)>)
    requires
        p.rotating_left || p.rotating_right,
    ensures
        player_tick(p, table).angle < FULL_TURN,
{
}

/// Advances the player by one tick.
pub fn update_player(player: &mut Player, table: &HeadingTable)
    ensures
        final(player)@ == player_tick(old(player)@, table@),
        valid_player(final(player)@),
{
    proof {
        use_type_invariant(&*player);
    }
    let speed: u32 = if player.thrusters {
        if player.speed + ACCELERATION <= MAX_SPEED {
            player.speed + ACCELERATION
        } else {
            MAX_SPEED
        }
    } else if player.speed >= DECELERATION {
        player.speed - DECELERATION
    } else {
        0
    };
    let rate: u32 = if player.thrusters {
        AGILITY / 2
    } else {
        AGILITY
    };
    let mut angle: u32 = player.angle;
    if player.rotating_left {
        angle = (angle + FULL_TURN - rate) % FULL_TURN;
    }
    if player.rotating_right {
        angle = (angle + rate) % FULL_TURN;
    }
    proof {
        let p = player@;
        let a1: int = if p.rotating_left { (p.angle - rate) % 720 } else { p.angle as int };
        assert(p.angle + 720 - rate == (p.angle - rate) + 720);
        assert(angle == next_angle(p));
    }
    let position = crate::heading::step_along(player.position, speed, table.get(angle));
    *player = Player {
        position,
        angle,
        rotating_left: player.rotating_left,
        rotating_right: player.rotating_right,
        thrusters: player.thrusters,
        speed,
    };
}

impl Player {
    #[verifier::type_invariant]
    spec fn inv(self) -> bool {
        self.speed <= MAX_SPEED && self.angle < FULL_TURN
    }

    pub fn position(&self) -> (r: Point)
        ensures
            r == self@.position,
    {
        self.position
    }

    /// The ship's angle, in half-degrees, below `FULL_TURN`.
    pub fn angle(&self) -> (r: u32)
        ensures
            r == self@.angle,
            r < FULL_TURN,
    {
        proof {
            use_type_invariant(self);
        }
        self.angle
    }

    /// Points the ship at `angle` half-degrees, wrapped into one turn.
    pub fn set_angle(&mut self, angle: u32)
        ensures
            final(self)@ == (PlayerView { angle: (angle % FULL_TURN) as nat, ..old(self)@ }),
    {
        proof {
            use_type_invariant(&*self);
        }
        self.angle = angle % FULL_TURN;
    }

    pub fn set_rotating_left(&mut self, rotating_left: bool)
        ensures
            final(self)@ == (PlayerView { rotating_left, ..old(self)@ }),
    {
        proof {
            use_type_invariant(&*self);
        }
        self.rotating_left = rotating_left;
    }

    pub fn set_rotating_right(&mut self, rotating_right: bool)
        ensures
            final(self)@ == (PlayerView { rotating_right, ..old(self)@ }),
    {
        proof {
            use_type_invariant(&*self);
        }
        self.rotating_right = rotating_right;
    }

    pub fn rotating_right(&self) -> (r: bool)
        ensures
            r == self@.rotating_right,
    {
        self.rotating_right
    }

    pub fn rotating_left(&self) -> (r: bool)
        ensures
            r == self@.rotating_left,
    {
        self.rotating_left
    }

    /// The ship's sprite: the moving one while the thrusters are on.
    pub fn get_src_rect(&self) -> (r: Rect)
        ensures
            r == (if self@.thrusters { PlayerSprite::Moving } else { PlayerSprite::Stationary }).src_rect(),
    {
        if self.thrusters {
            PlayerSprite::Moving.get_src_rect()
        } else {
            PlayerSprite::Stationary.get_src_rect()
        }
    }

    /// Where the ship is drawn: a scaled sprite centred on its position,
    /// shifted by `center_screen`.
    pub fn get_dst_rect(&self, center_screen: Point) -> (r: Rect)
        ensures
            r == sprite_box(moved(center_screen, self@.position.x as int, self@.position.y as int)),
    {
        sprite_dst_rect(center_screen, self.position)
    }

    pub fn thrusters(&self) -> (r: bool)
        ensures
            r == self@.thrusters,
    {
        self.thrusters
    }

    pub fn set_thrusters(&mut self, thrusters: bool)
        ensures
            final(self)@ == (PlayerView { thrusters, ..old(self)@ }),
    {
        proof {
            use_type_invariant(&*self);
        }
        self.thrusters = thrusters;
    }

    pub fn set_position(&mut self, position: Point)
        ensures
            final(self)@ == (PlayerView { position, ..old(self)@ }),
    {
        proof {
            use_type_invariant(&*self);
        }
        self.position = position;
    }

    /// The ship's speed, at most `MAX_SPEED`.
    pub fn speed(&self) -> (r: u32)
        ensures
            r == self@.speed,
            r <= MAX_SPEED,
    {
        proof {
            use_type_invariant(self);
        }
        self.speed
    }

    /// Sets the speed, capped at `MAX_SPEED`.
    pub fn set_speed(&mut self, speed: u32)
        ensures
            final(self)@ == (PlayerView {
                speed: if speed <= MAX_SPEED { speed as nat } else { MAX_SPEED as nat },
                ..old(self)@
            }),
    {
        proof {
            use_type_invariant(&*self);
        }
        self.speed = if speed <= MAX_SPEED { speed } else { MAX_SPEED };
    }
}

impl PlayerSprite {
    pub open spec fn src_rect(self) -> Rect {
        Rect {
            x: if self == PlayerSprite::Moving { 16 } else { 0 },
            y: 0,
            width: SPRITE_WIDTH,
            height: SPRITE_HEIGHT,
        }
    }
}

impl Default for Player {
    /// A ship at rest at the origin, pointing along the positive x axis.
    fn default() -> (r: Player)
        ensures
            r@ == (PlayerView {
                position: Point { x: 0, y: 0 },
                angle: 0,
                rotating_left: false,
                rotating_right: false,
                thrusters: false,
                speed: 0,
            }),
    {
        Player {
            position: Point::new(0, 0),
            angle: 0,
            rotating_left: false,
            rotating_right: false,
            thrusters: false,
            speed: 0,
        }
    }
}

} // verus!
