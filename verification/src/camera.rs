//! How the keys that are held down steer the camera.

use vstd::prelude::*;

verus! {

/// The keys that move the camera, each `true` while it is held down.
#[derive(Clone, Copy, Debug, PartialEq, Eq)]
pub struct MoveKeys {
    pub w: bool,
    pub s: bool,
    pub d: bool,
    pub a: bool,
    pub e: bool,
    pub q: bool,
}

/// The keys that turn the camera, each `true` while it is held down.
#[derive(Clone, Copy, Debug, PartialEq, Eq)]
pub struct RotateKeys {
    pub k: bool,
    pub i: bool,
    pub j: bool,
    pub l: bool,
}

/// A direction before it is brought to length one: each part is -1, 0 or 1.
#[derive(Clone, Copy, Debug, PartialEq, Eq)]
pub struct Direction {
    pub x: i8,
    pub y: i8,
    pub z: i8,
}

/// What two opposite keys make of an axis.
pub open spec fn axis(plus: bool, minus: bool) -> int {
    (if plus { 1int } else { 0int }) - (if minus { 1int } else { 0int })
}

fn steer(plus: bool, minus: bool) -> (part: i8)
    ensures
        part == axis(plus, minus),
{
    let up: i8 = if plus { 1 } else { 0 };
    let down: i8 = if minus { 1 } else { 0 };
    up - down
}

impl MoveKeys {
    /// Whether any of the keys is held down.
    pub open spec fn any(self) -> bool {
        self.w || self.s || self.d || self.a || self.e || self.q
    }

    /// The direction that the keys ask for: `w` and `s` along z, `a` and `d`
    /// along x, `e` and `q` along y.
    pub open spec fn direction(self) -> Direction {
        Direction {
            x: axis(self.a, self.d) as i8,
            y: axis(self.e, self.q) as i8,
            z: axis(self.w, self.s) as i8,
        }
    }
}

impl RotateKeys {
    /// Whether any of the keys is held down.
    pub open spec fn any(self) -> bool {
        self.k || self.i || self.j || self.l
    }

    /// The turn that the keys ask for: `l` and `j` along x, `i` and `k`
    /// along y; z stays 0.
    pub open spec fn direction(self) -> Direction {
        Direction { x: axis(self.l, self.j) as i8, y: axis(self.i, self.k) as i8, z: 0 }
    }
}

/// The direction in which the camera is to move, or `None` while no key is
/// held down. Opposite keys cancel, so the direction may be zero.
pub fn move_camera(keys: MoveKeys) -> (direction: Option<Direction>)
    ensures
        direction == if keys.any() {
            Some(keys.direction())
        } else {
            None
        },
{
    if keys.w || keys.s || keys.d || keys.a || keys.e || keys.q {
        Some(Direction { x: steer(keys.a, keys.d), y: steer(keys.e, keys.q), z: steer(keys.w, keys.s) })
    } else {
        None
    }
}

/// The direction about which the camera is to turn, or `None` while no key
/// is held down. Opposite keys cancel, so the direction may be zero.
pub fn rotate_camera(keys: RotateKeys) -> (direction: Option<Direction>)
    ensures
        direction == if keys.any() {
            Some(keys.direction())
        } else {
            None
        },
{
    if keys.k || keys.i || keys.j || keys.l {
        Some(Direction { x: steer(keys.l, keys.j), y: steer(keys.i, keys.k), z: 0 })
    } else {
        None
    }
}

} // verus!
