use vstd::prelude::*;

use crate::tile::{world_offset, TilePosition};

verus! {

/// Marks the one entity that the keyboard moves.
#[derive(Clone, Copy, Debug, PartialEq, Eq, Structural)]
pub struct Player;

/// Glyph of the sprite sheet that draws the player.
pub const PLAYER_GLYPH: usize = 94;

/// The arrow keys that went down during the current step.
#[derive(Clone, Copy, Debug, PartialEq, Eq, Structural)]
pub struct KeyPresses {
    pub up: bool,
    pub down: bool,
    pub left: bool,
    pub right: bool,
}

/// The change of column and row that one step applies: the first pressed key
/// in the order up, down, left, right decides, and none means no move.
pub open spec fn step_delta(keys: KeyPresses) -> (int, int) {
    if keys.up {
        (0, 1)
    } else if keys.down {
        (0, -1)
    } else if keys.left {
        (-1, 0)
    } else if keys.right {
        (1, 0)
    } else {
        (0, 0)
    }
}

pub open spec fn any_pressed(keys: KeyPresses) -> bool {
    keys.up || keys.down || keys.left || keys.right
}

/// The position after one step from `p`.
pub open spec fn stepped(p: TilePosition, keys: KeyPresses) -> (int, int, int) {
    (p.x + step_delta(keys).0, p.y + step_delta(keys).1, p.z as int)
}

/// Whether the step from `p` stays within the range of a coordinate.
pub open spec fn step_fits(p: TilePosition, keys: KeyPresses) -> bool {
    let s = stepped(p, keys);
    i32::MIN <= s.0 <= i32::MAX && i32::MIN <= s.1 <= i32::MAX
}

/// Whether one step with `keys` from `position` keeps both coordinates within
/// their range, as `keyboard_input` asks of its caller.
pub fn can_step(position: &TilePosition, keys: KeyPresses) -> (r: bool)
    ensures
        r == step_fits(*position, keys),
{
    if keys.up {
        position.y < i32::MAX
    } else if keys.down {
        position.y > i32::MIN
    } else if keys.left {
        position.x > i32::MIN
    } else if keys.right {
        position.x < i32::MAX
    } else {
        true
    }
}

/// The position at which the player enters the map.
pub fn spawn_position() -> (r: TilePosition)
    ensures
        r == (TilePosition { x: 0, y: 0, z: 1 }),
{
    TilePosition::new(0, 0, 1)
}

/// Applies one step of keyboard movement to the player's `position`. Of the
/// pressed keys only the first in the order up, down, left, right moves the
/// player, by one tile. Where the position changed, the new world offset is
/// returned for the player's transform.
pub fn keyboard_input(position: &mut TilePosition, keys: KeyPresses) -> (r: Option<(i64, i64, i64)>)
    requires
        step_fits(*old(position), keys),
    ensures
        (final(position).x as int, final(position).y as int, final(position).z as int)
            == stepped(*old(position), keys),
        r is Some <==> any_pressed(keys),
        r matches Some(w) ==> (w.0 as int, w.1 as int, w.2 as int) == world_offset(
            final(position).x as int,
            final(position).y as int,
            final(position).z as int,
        ),
{
    let mut changed = false;
    if keys.up {
        position.y = position.y + 1;
        changed = true;
    } else if keys.down {
        position.y = position.y - 1;
        changed = true;
    } else if keys.left {
        position.x = position.x - 1;
        changed = true;
    } else if keys.right {
        position.x = position.x + 1;
        changed = true;
    }
    if changed {
        Some(position.to_world_offset())
    } else {
        None
    }
}

} // verus!
