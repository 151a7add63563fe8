//! Walking on the overworld: one axis at a time, stopped by solid tiles.

use vstd::prelude::*;
use crate::encounter::{touches_any_tile, Position, TileGrid};
use crate::player::Player;

verus! {

/// The way the player looks.
#[derive(Clone, Copy, Debug, PartialEq, Eq, Structural)]
pub enum FacingDirection {
    Up,
    Down,
    Left,
    Right,
}

/// The position `x_delta` further right and `y_delta` further up.
pub open spec fn shifted(position: Position, x_delta: int, y_delta: int) -> Position {
    Position { x: (position.x + x_delta) as i64, y: (position.y + y_delta) as i64 }
}

/// Whether a step by the deltas from `position` ends clear of the walls.
pub open spec fn step_is_free(
    position: Position,
    x_delta: int,
    y_delta: int,
    walls: Seq<Position>,
    grid: TileGrid,
) -> bool {
    !grid.touches_any(shifted(position, x_delta, y_delta), walls)
}

/// The position after a step by the deltas, which is not taken where it
/// ends in a wall.
pub open spec fn stepped(
    position: Position,
    x_delta: int,
    y_delta: int,
    walls: Seq<Position>,
    grid: TileGrid,
) -> Position {
    if step_is_free(position, x_delta, y_delta, walls, grid) {
        shifted(position, x_delta, y_delta)
    } else {
        position
    }
}

/// The direction a move along the horizontal axis turns the player to.
pub open spec fn facing_x(x_delta: int) -> FacingDirection {
    if x_delta > 0 {
        FacingDirection::Right
    } else {
        FacingDirection::Left
    }
}

/// The direction a move along the vertical axis turns the player to.
pub open spec fn facing_y(y_delta: int) -> FacingDirection {
    if y_delta > 0 {
        FacingDirection::Up
    } else {
        FacingDirection::Down
    }
}

/// The outcome of one movement step: the player, the position, and the
/// direction the player turned to, if any.
///
/// A player without control stays put. Otherwise the horizontal part of
/// the step is tried first and the vertical part from where that ended;
/// each is taken unless it ends in a wall. The player has moved if a part
/// that was not zero was taken, and faces the way of the last such part.
pub open spec fn after_movement(
    player: Player,
    position: Position,
    x_delta: int,
    y_delta: int,
    walls: Seq<Position>,
    grid: TileGrid,
) -> (Player, Position, Option<FacingDirection>) {
    if !player.active {
        (Player { just_moved: false, ..player }, position, None)
    } else {
        let moved_x = x_delta != 0 && step_is_free(position, x_delta, 0, walls, grid);
        let midway = stepped(position, x_delta, 0, walls, grid);
        let moved_y = y_delta != 0 && step_is_free(midway, 0, y_delta, walls, grid);
        let end = stepped(midway, 0, y_delta, walls, grid);
        let facing = if moved_y {
            Some(facing_y(y_delta))
        } else if moved_x {
            Some(facing_x(x_delta))
        } else {
            None
        };
        (Player { just_moved: moved_x || moved_y, ..player }, end, facing)
    }
}

/// Whether both parts of a step stay within the coordinates.
pub open spec fn movement_fits(position: Position, x_delta: int, y_delta: int) -> bool {
    &&& i64::MIN <= position.x + x_delta <= i64::MAX
    &&& i64::MIN <= position.y + y_delta <= i64::MAX
}

/// Whether [`movement_fits`] holds.
pub fn can_move(position: &Position, x_delta: i64, y_delta: i64) -> (fits: bool)
    ensures
        fits == movement_fits(*position, x_delta as int, y_delta as int),
{
    position.x.checked_add(x_delta).is_some() && position.y.checked_add(y_delta).is_some()
}

/// Moves the player by the deltas, as far as the walls allow, and says
/// which way the player turned.
pub fn player_movement(
    player: &mut Player,
    position: &mut Position,
    x_delta: i64,
    y_delta: i64,
    walls: &Vec<Position>,
    grid: &TileGrid,
) -> (facing: Option<FacingDirection>)
    requires
        grid.wf(),
        movement_fits(*old(position), x_delta as int, y_delta as int),
    ensures
        (*final(player), *final(position), facing) == after_movement(
            *old(player),
            *old(position),
            x_delta as int,
            y_delta as int,
            walls@,
            *grid,
        ),
{
    player.just_moved = false;
    if !player.active {
        return None;
    }
    let mut facing: Option<FacingDirection> = None;
    let target = Position { x: position.x + x_delta, y: position.y };
    if !touches_any_tile(target, walls, grid) {
        if x_delta != 0 {
            player.just_moved = true;
            if x_delta > 0 {
                facing = Some(FacingDirection::Right);
            } else {
                facing = Some(FacingDirection::Left);
            }
        }
        *position = target;
    }
    let target = Position { x: position.x, y: position.y + y_delta };
    if !touches_any_tile(target, walls, grid) {
        if y_delta != 0 {
            player.just_moved = true;
            if y_delta > 0 {
                facing = Some(FacingDirection::Up);
            } else {
                facing = Some(FacingDirection::Down);
            }
        }
        *position = target;
    }
    facing
}

/// A step never ends in a wall that it did not start in, and a player
/// without control does not move.
pub proof fn lemma_walls_hold(
    player: Player,
    position: Position,
    x_delta: int,
    y_delta: int,
    walls: Seq<Position>,
    grid: TileGrid,
)
    requires
        movement_fits(position, x_delta, y_delta),
    ensures
        !grid.touches_any(position, walls) ==> !grid.touches_any(
            after_movement(player, position, x_delta, y_delta, walls, grid).1,
            walls,
        ),
        !player.active ==> after_movement(player, position, x_delta, y_delta, walls, grid).1
            == position,
        after_movement(player, position, x_delta, y_delta, walls, grid).0.just_moved
            ==> after_movement(player, position, x_delta, y_delta, walls, grid).1 != position,
{
}

} // verus!
