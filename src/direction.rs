use vstd::prelude::*;

verus! {

/// A hop direction on the mesh. `x` grows to the right and `y` grows
/// downward, so `Up` decreases `y` and `Left` decreases `x`. `Init` stands for
/// "no previous hop" and never appears on a link.
#[derive(Copy, Clone, Debug, PartialEq, Eq, Structural)]
pub enum Direction {
    Up,
    Down,
    Left,
    Right,
    Init,
}

impl Default for Direction {
    fn default() -> (r: Self)
        ensures
            r == Direction::Init,
    {
        Direction::Init
    }
}

/// A tile position `(x, y)`.
pub type Pos = (u8, u8);

/// The four directions that a link can have.
pub open spec fn is_cardinal(d: Direction) -> bool {
    d != Direction::Init
}

/// The direction that leads back over the same pair of tiles.
pub open spec fn opposite(d: Direction) -> Direction {
    match d {
        Direction::Up => Direction::Down,
        Direction::Down => Direction::Up,
        Direction::Left => Direction::Right,
        Direction::Right => Direction::Left,
        Direction::Init => Direction::Init,
    }
}

/// The coordinates one hop away from `p` in direction `d`, over the integers.
pub open spec fn neighbor(p: (int, int), d: Direction) -> (int, int) {
    match d {
        Direction::Up => (p.0, p.1 - 1),
        Direction::Down => (p.0, p.1 + 1),
        Direction::Left => (p.0 - 1, p.1),
        Direction::Right => (p.0 + 1, p.1),
        Direction::Init => p,
    }
}

/// A tile position read as a pair of integers.
pub open spec fn coords(p: Pos) -> (int, int) {
    (p.0 as int, p.1 as int)
}

/// Whether integer coordinates lie on a `width` by `height` grid.
pub open spec fn on_grid(p: (int, int), width: int, height: int) -> bool {
    0 <= p.0 < width && 0 <= p.1 < height
}

/// Whether integer coordinates fit in a `Pos`.
pub open spec fn fits_pos(p: (int, int)) -> bool {
    0 <= p.0 <= u8::MAX && 0 <= p.1 <= u8::MAX
}

/// The position one hop away from `p` in direction `d`; `d` must be cardinal
/// and the result must stay within the range of `u8`.
pub fn step(p: Pos, d: Direction) -> (r: Pos)
    requires
        is_cardinal(d),
        fits_pos(neighbor(coords(p), d)),
    ensures
        coords(r) == neighbor(coords(p), d),
{
    match d {
        Direction::Up => (p.0, p.1 - 1),
        Direction::Down => (p.0, p.1 + 1),
        Direction::Left => (p.0 - 1, p.1),
        Direction::Right => (p.0 + 1, p.1),
        Direction::Init => p,
    }
}

/// The direction that leads back over the same pair of tiles.
pub fn reverse(d: Direction) -> (r: Direction)
    ensures
        r == opposite(d),
{
    match d {
        Direction::Up => Direction::Down,
        Direction::Down => Direction::Up,
        Direction::Left => Direction::Right,
        Direction::Right => Direction::Left,
        Direction::Init => Direction::Init,
    }
}

} // verus!
