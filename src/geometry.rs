use vstd::prelude::*;

verus! {

/// The value of `v`, clamped into the range of `i64`.
pub open spec fn saturate(v: int) -> int {
    if v > i64::MAX {
        i64::MAX as int
    } else if v < i64::MIN {
        i64::MIN as int
    } else {
        v
    }
}

/// Adds `k` to `c`, saturating at the bounds of `i64`.
pub fn saturating_shift(c: i64, k: i128) -> (r: i64)
    requires
        -0x1_0000_0000_0000_0000_0000_0000 <= k <= 0x1_0000_0000_0000_0000_0000_0000,
    ensures
        r == saturate(c + k),
{
    let sum: i128 = c as i128 + k;
    if sum > i64::MAX as i128 {
        i64::MAX
    } else if sum < i64::MIN as i128 {
        i64::MIN
    } else {
        sum as i64
    }
}

/// One coordinate, worth `axial + diagonal / sqrt(2)` nano-units.
#[derive(Clone, Copy, Debug, PartialEq, Eq, Structural)]
pub struct Coord {
    pub axial: i64,
    pub diagonal: i64,
}

/// A point of the plane.
#[derive(Clone, Copy, Debug, PartialEq, Eq, Structural)]
pub struct Position {
    pub x: Coord,
    pub y: Coord,
}

/// A unit vector (or the zero vector), given by the `axial` and `diagonal`
/// coefficients of each of its two components.
pub struct UnitStep {
    pub axial_x: int,
    pub diagonal_x: int,
    pub axial_y: int,
    pub diagonal_y: int,
}

impl Position {
    /// The point at the origin.
    pub fn origin() -> (r: Position)
        ensures
            r == (Position { x: Coord { axial: 0, diagonal: 0 }, y: Coord { axial: 0, diagonal: 0 } }),
    {
        Position { x: Coord { axial: 0, diagonal: 0 }, y: Coord { axial: 0, diagonal: 0 } }
    }

    /// This point moved by `len` along `u`, each field saturating at the
    /// bounds of `i64`.
    pub open spec fn moved(self, u: UnitStep, len: int) -> Position {
        Position {
            x: Coord {
                axial: saturate(self.x.axial + u.axial_x * len) as i64,
                diagonal: saturate(self.x.diagonal + u.diagonal_x * len) as i64,
            },
            y: Coord {
                axial: saturate(self.y.axial + u.axial_y * len) as i64,
                diagonal: saturate(self.y.diagonal + u.diagonal_y * len) as i64,
            },
        }
    }
}

/// The four movement keys, each held or not during a frame.
#[derive(Clone, Copy, Debug, PartialEq, Eq, Structural)]
pub struct HeldKeys {
    pub up: bool,
    pub down: bool,
    pub left: bool,
    pub right: bool,
}

/// A direction on the integer grid, each component in `-1 ..= 1`.
#[derive(Clone, Copy, Debug, PartialEq, Eq, Structural)]
pub struct Direction {
    pub x: i64,
    pub y: i64,
}

/// One for a held key, zero otherwise.
pub open spec fn unit_if(b: bool) -> int {
    if b {
        1
    } else {
        0
    }
}

impl HeldKeys {
    /// The sum of one unit step for each held key.
    pub open spec fn spec_direction(self) -> Direction {
        Direction {
            x: (unit_if(self.right) - unit_if(self.left)) as i64,
            y: (unit_if(self.up) - unit_if(self.down)) as i64,
        }
    }

    /// The sum of one unit step for each held key: right and up count
    /// positive, left and down negative, so that opposite keys cancel.
    pub fn direction(&self) -> (r: Direction)
        ensures
            r == self.spec_direction(),
            -1 <= r.x <= 1,
            -1 <= r.y <= 1,
    {
        let mut x: i64 = 0;
        let mut y: i64 = 0;
        if self.right {
            x = x + 1;
        }
        if self.left {
            x = x - 1;
        }
        if self.up {
            y = y + 1;
        }
        if self.down {
            y = y - 1;
        }
        Direction { x, y }
    }
}

impl Direction {
    pub open spec fn wf(self) -> bool {
        -1 <= self.x <= 1 && -1 <= self.y <= 1
    }

    pub open spec fn is_zero(self) -> bool {
        self.x == 0 && self.y == 0
    }

    /// This direction scaled to unit length, or the zero vector where it is
    /// zero. A diagonal direction puts its two unit components `1 / sqrt(2)`
    /// into the diagonal coefficients.
    pub open spec fn normalized(self) -> UnitStep {
        if self.x != 0 && self.y != 0 {
            UnitStep { axial_x: 0, diagonal_x: self.x as int, axial_y: 0, diagonal_y: self.y as int }
        } else {
            UnitStep { axial_x: self.x as int, diagonal_x: 0, axial_y: self.y as int, diagonal_y: 0 }
        }
    }
}

/// The diagonal `(1, 1)` scaled to unit length.
pub open spec fn unit_diagonal() -> UnitStep {
    UnitStep { axial_x: 0, diagonal_x: 1, axial_y: 0, diagonal_y: 1 }
}

/// Twice the squared length of `u`, where each component has no cross term
/// (`axial * diagonal == 0`): `(a + d / sqrt(2))^2 == a^2 + d^2 / 2`.
pub open spec fn twice_squared_length(u: UnitStep) -> int {
    2 * (u.axial_x * u.axial_x + u.axial_y * u.axial_y) + u.diagonal_x * u.diagonal_x + u.diagonal_y
        * u.diagonal_y
}

/// Whatever keys are held, the normalized movement direction has length at
/// most one: exactly one when the keys give a direction, zero when they
/// cancel or none is held.
pub proof fn lemma_direction_at_most_unit(keys: HeldKeys)
    ensures
        keys.spec_direction().wf(),
        keys.spec_direction().normalized().axial_x * keys.spec_direction().normalized().diagonal_x == 0,
        keys.spec_direction().normalized().axial_y * keys.spec_direction().normalized().diagonal_y == 0,
        twice_squared_length(keys.spec_direction().normalized()) <= 2,
        twice_squared_length(keys.spec_direction().normalized()) == 2 <==> !keys.spec_direction().is_zero(),
        twice_squared_length(keys.spec_direction().normalized()) == 0 <==> keys.spec_direction().is_zero(),
{
    let d = keys.spec_direction();
    lemma_unit_times(d.x as int, d.x as int);
    lemma_unit_times(d.y as int, d.y as int);
    lemma_unit_times(d.x as int, 0);
    lemma_unit_times(d.y as int, 0);
}

proof fn lemma_unit_times(s: int, len: int)
    requires
        -1 <= s <= 1,
    ensures
        s * len == if s > 0 { len } else if s < 0 { -len } else { 0 },
{
    if s == 1 {
        assert(s * len == len) by (nonlinear_arith)
            requires
                s == 1,
        ;
    } else if s == -1 {
        assert(s * len == -len) by (nonlinear_arith)
            requires
                s == -1,
        ;
    } else {
        assert(s * len == 0) by (nonlinear_arith)
            requires
                s == 0,
        ;
    }
}

/// Moves `p` by `len` along the unit vector that `d` points to.
pub fn move_along(p: Position, d: Direction, len: u128) -> (r: Position)
    requires
        d.wf(),
        len <= 0x1_0000_0000_0000_0000_0000_0000,
    ensures
        r == p.moved(d.normalized(), len as int),
{
    let l: i128 = len as i128;
    proof {
        lemma_unit_times(d.x as int, len as int);
        lemma_unit_times(d.y as int, len as int);
    }
    if d.x != 0 && d.y != 0 {
        let dx: i128 = if d.x > 0 { l } else { -l };
        let dy: i128 = if d.y > 0 { l } else { -l };
        Position {
            x: Coord { axial: p.x.axial, diagonal: saturating_shift(p.x.diagonal, dx) },
            y: Coord { axial: p.y.axial, diagonal: saturating_shift(p.y.diagonal, dy) },
        }
    } else {
        let dx: i128 = if d.x > 0 { l } else if d.x < 0 { -l } else { 0 };
        let dy: i128 = if d.y > 0 { l } else if d.y < 0 { -l } else { 0 };
        Position {
            x: Coord { axial: saturating_shift(p.x.axial, dx), diagonal: p.x.diagonal },
            y: Coord { axial: saturating_shift(p.y.axial, dy), diagonal: p.y.diagonal },
        }
    }
}

/// Moves `p` by `len` along the unit diagonal `(1, 1) / sqrt(2)`.
pub fn move_diagonally(p: Position, len: u128) -> (r: Position)
    requires
        len <= 0x1_0000_0000_0000_0000_0000_0000,
    ensures
        r == p.moved(unit_diagonal(), len as int),
{
    let l: i128 = len as i128;
    Position {
        x: Coord { axial: p.x.axial, diagonal: saturating_shift(p.x.diagonal, l) },
        y: Coord { axial: p.y.axial, diagonal: saturating_shift(p.y.diagonal, l) },
    }
}

} // verus!
