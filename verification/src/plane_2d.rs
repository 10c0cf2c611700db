//! Points on an unbounded plane and the four cardinal directions.
//!
//! The drawing surface is a torus: after a unit step a point is wrapped back
//! into `[0, width) x [0, height)` with true modular arithmetic, so a pipe
//! walking off one edge reappears on the opposite edge at the right phase.

use vstd::prelude::*;

verus! {

/// 2D point: `(x, y)`. Coordinates are signed so that a unit step may leave
/// the plane before `wrap` brings it back.
#[derive(Copy, Clone, Debug, PartialEq, Eq, Structural)]
pub struct Point {
    pub x: isize,
    pub y: isize,
}

/// Main four (cardinal) directions.
#[derive(Copy, Clone, Debug, PartialEq, Eq, Structural)]
pub enum Direction {
    Up,
    Down,
    Right,
    Left,
}

impl Default for Point {
    fn default() -> (p: Self)
        ensures
            p.x == 0 && p.y == 0,
    {
        Point { x: 0, y: 0 }
    }
}

impl Default for Direction {
    fn default() -> (d: Self)
        ensures
            d is Up,
    {
        Direction::Up
    }
}

impl Direction {
    /// The direction that points straight back along this one.
    pub open spec fn spec_opposite(self) -> Direction {
        match self {
            Direction::Up => Direction::Down,
            Direction::Down => Direction::Up,
            Direction::Right => Direction::Left,
            Direction::Left => Direction::Right,
        }
    }

    /// Whether this direction runs along the vertical axis.
    pub open spec fn is_vertical(self) -> bool {
        self is Up || self is Down
    }

    #[verifier::when_used_as_spec(spec_opposite)]
    pub fn opposite(self) -> (d: Direction)
        ensures
            d == self.spec_opposite(),
    {
        match self {
            Direction::Up => Direction::Down,
            Direction::Down => Direction::Up,
            Direction::Right => Direction::Left,
            Direction::Left => Direction::Right,
        }
    }

    /// Where a turn leads from this heading: one of the two orthogonal
    /// directions, picked by `choice`.
    pub open spec fn spec_turned(self, choice: bool) -> Direction {
        match self {
            Direction::Up | Direction::Down => if choice {
                Direction::Right
            } else {
                Direction::Left
            },
            Direction::Right | Direction::Left => if choice {
                Direction::Up
            } else {
                Direction::Down
            },
        }
    }

    /// Turn 90 degrees off this heading; `choice` picks which of the two
    /// orthogonal directions is taken.
    pub fn turned(self, choice: bool) -> (d: Direction)
        ensures
            d == self.spec_turned(choice),
    {
        match self {
            Direction::Up | Direction::Down => if choice {
                Direction::Right
            } else {
                Direction::Left
            },
            Direction::Right | Direction::Left => if choice {
                Direction::Up
            } else {
                Direction::Down
            },
        }
    }
}

/// A turn never keeps the axis: from a vertical heading it always yields
/// `Right` or `Left`, from a horizontal one `Up` or `Down`; in particular it
/// never continues straight and never reverses into the pipe's own tail.
pub proof fn lemma_turn_is_orthogonal(d: Direction, choice: bool)
    ensures
        d.is_vertical() ==> !d.spec_turned(choice).is_vertical(),
        !d.is_vertical() ==> d.spec_turned(choice).is_vertical(),
        d.spec_turned(choice) != d,
        d.spec_turned(choice) != d.spec_opposite(),
{
}

/// One coordinate wrapped into `[0, m)` with true (Euclidean) modular
/// arithmetic.
pub open spec fn wrap_coord_spec(x: int, m: int) -> int {
    x % m
}

fn wrap_coord(x: isize, m: isize) -> (r: isize)
    requires
        m > 0,
    ensures
        r == wrap_coord_spec(x as int, m as int),
        0 <= r < m,
{
    if x >= 0 {
        x % m
    } else {
        let d: isize = (-(x + 1)) % m;
        proof {
            let mi: int = m as int;
            let y: int = -(x as int) - 1;
            let q: int = y / mi;
            let r: int = y % mi;
            vstd::arithmetic::div_mod::lemma_fundamental_div_mod(y, mi);
            vstd::arithmetic::div_mod::lemma_mod_bound(y, mi);
            assert(y == mi * q + r);
            assert(mi * (-q - 1) == -(mi * q) - mi) by (nonlinear_arith);
            assert(x as int == mi * (-q - 1) + (mi - 1 - r));
            vstd::arithmetic::div_mod::lemma_mod_multiples_vanish(-q - 1, mi - 1 - r, mi);
            vstd::arithmetic::div_mod::lemma_small_mod((mi - 1 - r) as nat, m as nat);
        }
        m - 1 - d
    }
}

/// Wrapping is periodic: shifting a coordinate by any whole number of plane
/// widths lands on the same wrapped coordinate.
pub proof fn lemma_wrap_periodic(x: int, k: int, m: int)
    requires
        m > 0,
    ensures
        wrap_coord_spec(x + k * m, m) == wrap_coord_spec(x, m),
{
    vstd::arithmetic::div_mod::lemma_mod_multiples_vanish(k, x, m);
    assert(m * k == k * m) by (nonlinear_arith);
}

/// The horizontal displacement of a unit step in direction `dir`.
pub open spec fn step_dx(dir: Direction) -> int {
    match dir {
        Direction::Right => 1,
        Direction::Left => -1,
        _ => 0,
    }
}

/// The vertical displacement of a unit step in direction `dir`.
pub open spec fn step_dy(dir: Direction) -> int {
    match dir {
        Direction::Down => 1,
        Direction::Up => -1,
        _ => 0,
    }
}

impl Point {
    /// Move a point one unit in the specified direction.
    pub fn advance(&mut self, dir: Direction)
        requires
            dir is Up ==> old(self).y > isize::MIN,
            dir is Down ==> old(self).y < isize::MAX,
            dir is Right ==> old(self).x < isize::MAX,
            dir is Left ==> old(self).x > isize::MIN,
        ensures
            final(self).x == old(self).x + step_dx(dir),
            final(self).y == old(self).y + step_dy(dir),
    {
        match dir {
            Direction::Up => self.y = self.y - 1,
            Direction::Down => self.y = self.y + 1,
            Direction::Right => self.x = self.x + 1,
            Direction::Left => self.x = self.x - 1,
        };
    }

    /// Wrap a point within the plane (specified by width and height), each
    /// axis independently, into `[0, width) x [0, height)`.
    ///
    /// E.g. on a plane 24 units wide, the x-coord -4 wraps to 20: going 4
    /// units left from the left edge re-enters from the right edge.
    pub fn wrap(&mut self, width: isize, height: isize)
        requires
            width > 0,
            height > 0,
        ensures
            final(self).x == wrap_coord_spec(old(self).x as int, width as int),
            final(self).y == wrap_coord_spec(old(self).y as int, height as int),
            0 <= final(self).x < width,
            0 <= final(self).y < height,
    {
        self.x = wrap_coord(self.x, width);
        self.y = wrap_coord(self.y, height);
    }
}

} // verus!
