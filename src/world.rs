//! One tick of the whole game, and the player's input between ticks.
use vstd::prelude::*;

use crate::enemy::{enemy_shot, enemy_tick, enemy_views, fires, roll_percent, update_enemy_with_roll, Enemy, EnemyView};
use crate::geometry::{moved, Point};
use crate::heading::HeadingTable;
use crate::laser::{fresh_laser, laser_hits, laser_tick, laser_views, update_laser, Laser, LaserSprite, LaserView};
use crate::player::{player_tick, update_player, Player, PlayerView};
use crate::sprite_box;

verus! {

/// The lasers after one tick, in their order, without those that expired.
pub open spec fn lasers_tick(lasers: Seq<LaserView>) -> Seq<LaserView>
    decreases lasers.len(),
{
    if lasers.len() == 0 {
        Seq::empty()
    } else {
        let rest = lasers_tick(lasers.drop_last());
        match laser_tick(lasers.last()) {
            Some(l) => rest.push(l),
            None => rest,
        }
    }
}

/// The screen rectangle of the enemy `e`, where `center_screen` is the
/// screen position of the world's origin.
pub open spec fn enemy_box(e: EnemyView, center_screen: Point) -> crate::geometry::Rect {
    sprite_box(moved(center_screen, e.position.x as int, e.position.y as int))
}

/// Some laser of `shots` met the enemy `e` in its last tick.
pub open spec fn destroyed(e: EnemyView, shots: Seq<LaserView>, center_screen: Point) -> bool {
    exists|i: int| 0 <= i < shots.len() && laser_hits(shots[i], center_screen, enemy_box(e, center_screen))
}

/// The enemies after one tick, in their order, and the lasers they fired:
/// an enemy that one of `shots` met is gone, and neither moves nor fires;
/// every other one takes its tick with the roll at its own index of `rolls`.
pub open spec fn enemies_tick(
    enemies: Seq<EnemyView>,
    shots: Seq<LaserView>,
    target: Point,
    center_screen: Point,
    rolls: Seq<u32>,
) -> (Seq<EnemyView>, Seq<LaserView>)
    decreases enemies.len(),
{
    if enemies.len() == 0 {
        (Seq::empty(), Seq::empty())
    } else {
        let (alive, fired) = enemies_tick(enemies.drop_last(), shots, target, center_screen, rolls);
        let e = enemies.last();
        if destroyed(e, shots, center_screen) {
            (alive, fired)
        } else {
            let fired = if fires(rolls[enemies.len() - 1] as int) {
                fired.push(enemy_shot(e, target))
            } else {
                fired
            };
            (alive.push(enemy_tick(e, target)), fired)
        }
    }
}

/// `after` and `r` (the player's lasers, the enemies and the enemies' lasers)
/// are the game one tick on from `before`, `lasers`, `enemies` and
/// `enemy_lasers`, given the enemies' rolls: the player moves first; then
/// every laser; then each enemy that no laser of the player met faces the
/// player where it now is, may fire, and moves.
pub open spec fn tick_result(
    before: PlayerView,
    lasers: Seq<Laser>,
    enemies: Seq<Enemy>,
    enemy_lasers: Seq<Laser>,
    center_screen: Point,
    table: Seq<(int, int)>,
    rolls: Seq<u32>,
    after: PlayerView,
    r: (Vec<Laser>, Vec<Enemy>, Vec<Laser>),
) -> bool {
    let shots = lasers_tick(laser_views(lasers));
    let (alive, fired) = enemies_tick(enemy_views(enemies), shots, after.position, center_screen, rolls);
    &&& after == player_tick(before, table)
    &&& laser_views(r.0@) == shots
    &&& enemy_views(r.1@) == alive
    &&& laser_views(r.2@) == lasers_tick(laser_views(enemy_lasers)) + fired
}

fn advance_lasers(lasers: &Vec<Laser>) -> (r: Vec<Laser>)
    ensures
        laser_views(r@) == lasers_tick(laser_views(lasers@)),
{
    let mut out: Vec<Laser> = Vec::new();
    let n = lasers.len();
    for i in 0..n
        invariant
            n == lasers.len(),
            laser_views(out@) == lasers_tick(laser_views(lasers@).take(i as int)),
    {
        let ghost before = out@;
        let ghost prefix = laser_views(lasers@).take(i + 1);
        assert(prefix.drop_last() =~= laser_views(lasers@).take(i as int));
        assert(prefix.last() == lasers@[i as int]@);
        match update_laser(lasers[i]) {
            Some(l) => {
                out.push(l);
                assert(laser_views(out@) =~= laser_views(before).push(l@));
            },
            None => {},
        }
    }
    assert(laser_views(lasers@).take(n as int) =~= laser_views(lasers@));
    out
}

fn hit_by_any(shots: &Vec<Laser>, enemy: &Enemy, center_screen: Point) -> (r: bool)
    ensures
        r == destroyed(enemy@, laser_views(shots@), center_screen),
{
    let target = enemy.get_dst_rect(center_screen);
    let n = shots.len();
    for i in 0..n
        invariant
            n == shots.len(),
            target == enemy_box(enemy@, center_screen),
            forall|j: int| 0 <= j < i ==> !laser_hits(shots@[j]@, center_screen, target),
    {
        if shots[i].hit(center_screen, target) {
            assert(laser_views(shots@)[i as int] == shots@[i as int]@);
            return true;
        }
    }
    assert forall|j: int| 0 <= j < laser_views(shots@).len() implies !laser_hits(
        laser_views(shots@)[j],
        center_screen,
        target,
    ) by {
        assert(laser_views(shots@)[j] == shots@[j]@);
    }
    false
}

/// Runs one tick of the game given each enemy's roll from `0..100`, in the
/// order of `enemies`. Returns the player's lasers, the enemies and the
/// enemies' lasers after the tick.
pub fn update_with_rolls(
    player: &mut Player,
    lasers: &Vec<Laser>,
    enemies: &Vec<Enemy>,
    enemy_lasers: &Vec<Laser>,
    center_screen: Point,
    table: &HeadingTable,
    rolls: &Vec<u32>,
) -> (r: (Vec<Laser>, Vec<Enemy>, Vec<Laser>))
    requires
        rolls.len() == enemies.len(),
    ensures
        tick_result(
            old(player)@,
            lasers@,
            enemies@,
            enemy_lasers@,
            center_screen,
            table@,
            rolls@,
            final(player)@,
            r,
        ),
{
    update_player(player, table);
    let target = player.position();
    let shots = advance_lasers(lasers);
    let mut out_lasers = advance_lasers(enemy_lasers);
    let mut alive: Vec<Enemy> = Vec::new();
    let ghost advanced = laser_views(out_lasers@);
    let ghost sv = laser_views(shots@);
    let n = enemies.len();
    for i in 0..n
        invariant
            n == enemies.len(),
            n == rolls.len(),
            sv == laser_views(shots@),
            ({
                let (a, f) = enemies_tick(enemy_views(enemies@).take(i as int), sv, target, center_screen, rolls@);
                enemy_views(alive@) == a && laser_views(out_lasers@) == advanced + f
            }),
    {
        let ghost prefix = enemy_views(enemies@).take(i + 1);
        assert(prefix.drop_last() =~= enemy_views(enemies@).take(i as int));
        assert(prefix.last() == enemies@[i as int]@);
        let ghost (a0, f0) = enemies_tick(enemy_views(enemies@).take(i as int), sv, target, center_screen, rolls@);
        if !hit_by_any(&shots, &enemies[i], center_screen) {
            let ghost lasers_before = out_lasers@;
            let ghost alive_before = alive@;
            let moved_enemy = update_enemy_with_roll(&enemies[i], target, &mut out_lasers, rolls[i]);
            alive.push(moved_enemy);
            assert(enemy_views(alive@) =~= enemy_views(alive_before).push(moved_enemy@));
            proof {
                if fires(rolls@[i as int] as int) {
                    assert(laser_views(out_lasers@) =~= advanced + f0.push(enemy_shot(enemies@[i as int]@, target)));
                }
            }
        }
    }
    assert(enemy_views(enemies@).take(n as int) =~= enemy_views(enemies@));
    (shots, alive, out_lasers)
}

/// Runs one tick of the game, drawing each enemy's roll at random. Returns
/// the player's lasers, the enemies and the enemies' lasers after the tick:
/// those that `update_with_rolls` gives for some rolls from `0..100`.
pub fn update(
    player: &mut Player,
    lasers: &Vec<Laser>,
    enemies: &Vec<Enemy>,
    enemy_lasers: &Vec<Laser>,
    center_screen: Point,
    table: &HeadingTable,
) -> (r: (Vec<Laser>, Vec<Enemy>, Vec<Laser>))
    ensures
        exists|rolls: Seq<u32>|
            {
                &&& rolls.len() == enemies.len()
                &&& forall|i: int| 0 <= i < rolls.len() ==> rolls[i] < 100
                &&& tick_result(
                    old(player)@,
                    lasers@,
                    enemies@,
                    enemy_lasers@,
                    center_screen,
                    table@,
                    rolls,
                    final(player)@,
                    r,
                )
            },
{
    let mut rolls: Vec<u32> = Vec::new();
    let n = enemies.len();
    for i in 0..n
        invariant
            rolls.len() == i,
            forall|j: int| 0 <= j < i ==> rolls@[j] < 100,
    {
        rolls.push(roll_percent());
    }
    update_with_rolls(player, lasers, enemies, enemy_lasers, center_screen, table, &rolls)
}

/// The keys that the game reads.
#[derive(Debug, Clone, Copy, PartialEq, Eq, Structural)]
pub enum Key {
    Up,
    Left,
    Right,
    Space,
    Escape,
    Other,
}

/// One input event between ticks.
#[derive(Debug, Clone, Copy, PartialEq, Eq, Structural)]
pub enum Control {
    Quit,
    KeyDown(Key),
    KeyUp(Key),
}

/// The event ends the game: a request to quit, or Escape pressed.
pub open spec fn ends_game(event: Control) -> bool {
    event == Control::Quit || event == Control::KeyDown(Key::Escape)
}

/// The player after `event`: Up turns the thrusters on while held, Left and
/// Right turn the ship while held.
pub open spec fn player_input(p: PlayerView, event: Control) -> PlayerView {
    match event {
        Control::KeyDown(Key::Up) => PlayerView { thrusters: true, ..p },
        Control::KeyUp(Key::Up) => PlayerView { thrusters: false, ..p },
        Control::KeyDown(Key::Left) => PlayerView { rotating_left: true, ..p },
        Control::KeyUp(Key::Left) => PlayerView { rotating_left: false, ..p },
        Control::KeyDown(Key::Right) => PlayerView { rotating_right: true, ..p },
        Control::KeyUp(Key::Right) => PlayerView { rotating_right: false, ..p },
        _ => p,
    }
}

/// Applies one input event: sets the player's flags, and on Space fires a
/// green laser from the player's position along its heading. Returns whether
/// the game goes on.
pub fn handle_input(player: &mut Player, lasers: &mut Vec<Laser>, event: Control, table: &HeadingTable) -> (running:
    bool)
    ensures
        running == !ends_game(event),
        final(player)@ == player_input(old(player)@, event),
        laser_views(final(lasers)@) == if event == Control::KeyDown(Key::Space) {
            laser_views(old(lasers)@).push(
                fresh_laser(old(player)@.position, table@[old(player)@.angle as int], LaserSprite::Green),
            )
        } else {
            laser_views(old(lasers)@)
        },
{
    match event {
        Control::Quit | Control::KeyDown(Key::Escape) => {
            return false;
        },
        Control::KeyDown(Key::Up) => player.set_thrusters(true),
        Control::KeyUp(Key::Up) => player.set_thrusters(false),
        Control::KeyDown(Key::Left) => player.set_rotating_left(true),
        Control::KeyUp(Key::Left) => player.set_rotating_left(false),
        Control::KeyDown(Key::Right) => player.set_rotating_right(true),
        Control::KeyUp(Key::Right) => player.set_rotating_right(false),
        Control::KeyDown(Key::Space) => {
            let shot = Laser::new(player.position(), table.get(player.angle()), LaserSprite::Green);
            lasers.push(shot);
            assert(laser_views(lasers@) =~= laser_views(old(lasers)@).push(shot@));
        },
        _ => {},
    }
    true
}

} // verus!
