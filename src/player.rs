//! The player: walking on the directional keys and turning to the cursor.
use vstd::prelude::*;

verus! {

/// Speed of the player, in world units per second.
pub const PLAYER_SPEED: u32 = 90;

/// A point of world space, in nano-units.
#[derive(Clone, Copy, Debug, PartialEq, Eq, Structural)]
pub struct Position {
    pub x: i64,
    pub y: i64,
}

/// A facing direction, given by any vector that points along it. Two facings
/// are the same rotation when one is a positive multiple of the other.
#[derive(Clone, Copy, Debug, PartialEq, Eq, Structural)]
pub struct Facing {
    pub dx: i128,
    pub dy: i128,
}

impl Facing {
    /// The facing along the local forward (x) axis: no rotation.
    pub fn forward() -> (r: Facing)
        ensures
            r.dx == 1,
            r.dy == 0,
    {
        Facing { dx: 1, dy: 0 }
    }

    pub open spec fn wf(&self) -> bool {
        self.dx != 0 || self.dy != 0
    }

    /// Whether this facing, seen from `from`, points exactly at `to`: the
    /// vector from `from` to `to` is a positive multiple of it.
    pub open spec fn points_at(&self, from: Position, to: Position) -> bool {
        let vx = to.x - from.x;
        let vy = to.y - from.y;
        &&& self.dx * vy == self.dy * vx
        &&& self.dx * vx + self.dy * vy > 0
    }
}

/// Which of the four directional keys are held this frame.
#[derive(Clone, Copy, Debug, PartialEq, Eq, Structural)]
pub struct Keys {
    pub up: bool,
    pub down: bool,
    pub left: bool,
    pub right: bool,
}

/// Sign of the horizontal move for a set of held keys. The combinations are
/// tried in turn: up+right, up+left, down+right, down+left, then up, down,
/// left and right alone; the first that is held decides.
pub open spec fn x_step(k: Keys) -> int {
    if k.up && k.right {
        1
    } else if k.up && k.left {
        -1
    } else if k.down && k.right {
        1
    } else if k.down && k.left {
        -1
    } else if k.up || k.down {
        0
    } else if k.left {
        -1
    } else if k.right {
        1
    } else {
        0
    }
}

/// Sign of the vertical move for a set of held keys, by the same order as
/// `x_step`.
pub open spec fn y_step(k: Keys) -> int {
    if k.up {
        1
    } else if k.down {
        -1
    } else {
        0
    }
}

impl Keys {
    pub open spec fn none_held(&self) -> bool {
        !self.up && !self.down && !self.left && !self.right
    }

    /// The signs of the horizontal and vertical move.
    pub fn steps(&self) -> (r: (i8, i8))
        ensures
            r.0 == x_step(*self),
            r.1 == y_step(*self),
    {
        let x: i8 = if self.up && self.right {
            1
        } else if self.up && self.left {
            -1
        } else if self.down && self.right {
            1
        } else if self.down && self.left {
            -1
        } else if self.up || self.down {
            0
        } else if self.left {
            -1
        } else if self.right {
            1
        } else {
            0
        };
        let y: i8 = if self.up {
            1
        } else if self.down {
            -1
        } else {
            0
        };
        (x, y)
    }
}

/// The player: where it stands, where it faces, how fast it walks.
#[derive(Clone, Copy, Debug, PartialEq, Eq, Structural)]
pub struct Player {
    pub position: Position,
    pub facing: Facing,
    pub speed: u32,
}

/// Distance covered at `speed` units per second in `dt` nanoseconds, in
/// nano-units.
pub open spec fn distance(speed: u32, dt: u64) -> int {
    speed as int * dt as int
}

impl Player {
    pub open spec fn wf(&self) -> bool {
        self.facing.wf()
    }

    /// Where a frame of `dt` nanoseconds with `keys` held takes the player.
    pub open spec fn walked_to(&self, keys: Keys, dt: u64) -> (int, int) {
        (
            self.position.x + x_step(keys) * distance(self.speed, dt),
            self.position.y + y_step(keys) * distance(self.speed, dt),
        )
    }

    /// The frame's move stays within the range of a position.
    pub open spec fn walk_fits(&self, keys: Keys, dt: u64) -> bool {
        let (x, y) = self.walked_to(keys, dt);
        i64::MIN <= x <= i64::MAX && i64::MIN <= y <= i64::MAX
    }

    /// The player as it enters the game: at the origin, unrotated.
    pub open spec fn spawn_spec() -> Player {
        Player { position: Position { x: 0, y: 0 }, facing: Facing { dx: 1, dy: 0 }, speed: PLAYER_SPEED }
    }

    pub fn spawn() -> (r: Player)
        ensures
            r.wf(),
            r == Player::spawn_spec(),
    {
        Player { position: Position { x: 0, y: 0 }, facing: Facing::forward(), speed: PLAYER_SPEED }
    }
}

/// The player after a frame of `dt` nanoseconds with `keys` held.
pub open spec fn walked(p: Player, keys: Keys, dt: u64) -> Player {
    Player {
        position: Position { x: p.walked_to(keys, dt).0 as i64, y: p.walked_to(keys, dt).1 as i64 },
        ..p
    }
}

/// The player after turning to a cursor position, if there is one and it is
/// not where the player stands.
pub open spec fn aimed(p: Player, cursor: Option<Position>) -> Player {
    match cursor {
        Some(c) => if c == p.position {
            p
        } else {
            Player {
                facing: Facing {
                    dx: (c.x - p.position.x) as i128,
                    dy: (c.y - p.position.y) as i128,
                },
                ..p
            }
        },
        None => p,
    }
}

/// Moves the player for one frame of `dt_ns` nanoseconds with `keys` held:
/// each axis that the keys select moves by speed times time, in the selected
/// sign. Diagonal moves are not normalised.
pub fn move_player(player: &mut Player, keys: Keys, dt_ns: u64)
    requires
        old(player).walk_fits(keys, dt_ns),
    ensures
        *final(player) == walked(*old(player), keys, dt_ns),
        final(player).position.x == old(player).walked_to(keys, dt_ns).0,
        final(player).position.y == old(player).walked_to(keys, dt_ns).1,
        final(player).facing == old(player).facing,
        final(player).speed == old(player).speed,
{
    let (sx, sy) = keys.steps();
    assert(player.speed as int * dt_ns as int <= u32::MAX as int * u64::MAX as int) by (nonlinear_arith)
        requires
            player.speed <= u32::MAX,
            dt_ns <= u64::MAX,
    ;
    let d: i128 = player.speed as i128 * dt_ns as i128;
    assert(d == distance(player.speed, dt_ns)) by (nonlinear_arith)
        requires
            d == player.speed as int * dt_ns as int,
    ;
    let nx: i128 = player.position.x as i128 + sx as i128 * d;
    let ny: i128 = player.position.y as i128 + sy as i128 * d;
    player.position = Position { x: nx as i64, y: ny as i64 };
}

/// Turns the player to face the cursor's world position, all at once. With no
/// cursor position (outside the window, or no projection) the player is left
/// as it is; so it is when the cursor stands exactly on the player.
pub fn aim(player: &mut Player, cursor: Option<Position>)
    requires
        old(player).wf(),
    ensures
        final(player).wf(),
        *final(player) == aimed(*old(player), cursor),
        final(player).position == old(player).position,
        final(player).speed == old(player).speed,
        match cursor {
            None => *final(player) == *old(player),
            Some(c) => if c == old(player).position {
                *final(player) == *old(player)
            } else {
                &&& final(player).facing.dx == c.x - old(player).position.x
                &&& final(player).facing.dy == c.y - old(player).position.y
                &&& final(player).facing.points_at(old(player).position, c)
            },
        },
{
    if let Some(c) = cursor {
        if c.x != player.position.x || c.y != player.position.y {
            let vx: i128 = c.x as i128 - player.position.x as i128;
            let vy: i128 = c.y as i128 - player.position.y as i128;
            assert(vx * vx + vy * vy > 0) by (nonlinear_arith)
                requires
                    vx != 0 || vy != 0,
            ;
            player.facing = Facing { dx: vx, dy: vy };
        }
    }
}

proof fn steps_scale_distance(keys: Keys, d: int)
    ensures
        x_step(keys) == 1 ==> x_step(keys) * d == d,
        x_step(keys) == -1 ==> x_step(keys) * d == -d,
        x_step(keys) == 0 ==> x_step(keys) * d == 0,
        y_step(keys) == 1 ==> y_step(keys) * d == d,
        y_step(keys) == -1 ==> y_step(keys) * d == -d,
        y_step(keys) == 0 ==> y_step(keys) * d == 0,
{
}

/// Two orthogonal keys held together (one of up and down, one of left and
/// right) move the player along both axes at once, each by speed times time in
/// the direction of its key.
pub proof fn two_orthogonal_keys_move_both_axes(p: Player, keys: Keys, dt: u64)
    requires
        p.walk_fits(keys, dt),
        keys.up != keys.down,
        keys.left != keys.right,
    ensures
        walked(p, keys, dt).position.x == p.position.x + (if keys.right {
            distance(p.speed, dt)
        } else {
            -distance(p.speed, dt)
        }),
        walked(p, keys, dt).position.y == p.position.y + (if keys.up {
            distance(p.speed, dt)
        } else {
            -distance(p.speed, dt)
        }),
{
    steps_scale_distance(keys, distance(p.speed, dt));
}

/// A single key held alone moves the player along its own axis only, by speed
/// times time in its direction.
pub proof fn single_key_moves_one_axis(p: Player, keys: Keys, dt: u64)
    requires
        p.walk_fits(keys, dt),
        (keys.up as int) + (keys.down as int) + (keys.left as int) + (keys.right as int) == 1,
    ensures
        keys.up ==> walked(p, keys, dt).position == (Position {
            x: p.position.x,
            y: (p.position.y + distance(p.speed, dt)) as i64,
        }),
        keys.down ==> walked(p, keys, dt).position == (Position {
            x: p.position.x,
            y: (p.position.y - distance(p.speed, dt)) as i64,
        }),
        keys.left ==> walked(p, keys, dt).position == (Position {
            x: (p.position.x - distance(p.speed, dt)) as i64,
            y: p.position.y,
        }),
        keys.right ==> walked(p, keys, dt).position == (Position {
            x: (p.position.x + distance(p.speed, dt)) as i64,
            y: p.position.y,
        }),
{
    steps_scale_distance(keys, distance(p.speed, dt));
}

/// With no directional key held the player does not move, whatever the
/// frame's time.
pub proof fn no_key_keeps_position(p: Player, keys: Keys, dt: u64)
    requires
        keys.none_held(),
    ensures
        walked(p, keys, dt) == p,
{
}

} // verus!
