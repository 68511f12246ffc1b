use vstd::prelude::*;

verus! {

/// A point in the global logical coordinate space.
#[derive(Debug, Clone, Copy, PartialEq, Eq, Structural)]
pub struct Point {
    pub x: i32,
    pub y: i32,
}

/// A width and a height in logical units.
#[derive(Debug, Clone, Copy, PartialEq, Eq, Structural)]
pub struct Size {
    pub w: i32,
    pub h: i32,
}

/// An axis-aligned rectangle: its origin and its size.
#[derive(Debug, Clone, Copy, PartialEq, Eq, Structural)]
pub struct Rect {
    pub loc: Point,
    pub size: Size,
}

impl Rect {
    /// The point `(x, y)` lies in the half-open rectangle `[x, x + w) x [y, y + h)`.
    pub open spec fn spec_contains_int(self, x: int, y: int) -> bool {
        &&& self.loc.x <= x
        &&& x < self.loc.x + self.size.w
        &&& self.loc.y <= y
        &&& y < self.loc.y + self.size.h
    }

    pub open spec fn spec_contains(self, p: Point) -> bool {
        self.spec_contains_int(p.x as int, p.y as int)
    }

    pub fn contains_at(&self, x: i64, y: i64) -> (r: bool)
        ensures
            r == self.spec_contains_int(x as int, y as int),
    {
        self.loc.x as i64 <= x && x < self.loc.x as i64 + self.size.w as i64
            && self.loc.y as i64 <= y && y < self.loc.y as i64 + self.size.h as i64
    }

    pub fn contains(&self, p: Point) -> (r: bool)
        ensures
            r == self.spec_contains(p),
    {
        let x = p.x as i64;
        let y = p.y as i64;
        self.loc.x as i64 <= x && x < self.loc.x as i64 + self.size.w as i64
            && self.loc.y as i64 <= y && y < self.loc.y as i64 + self.size.h as i64
    }
}

} // verus!
