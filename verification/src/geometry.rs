//! Screen points and window rectangles.

use vstd::prelude::*;

verus! {

/// A point on the screen, in pixels.
#[derive(Clone, Copy, PartialEq, Eq, Structural, Debug)]
pub struct Point {
    pub x: i32,
    pub y: i32,
}

/// A window's bounds on the screen; both edges of each axis belong to it.
#[derive(Clone, Copy, PartialEq, Eq, Structural, Debug)]
pub struct Rect {
    pub left: i32,
    pub top: i32,
    pub right: i32,
    pub bottom: i32,
}

/// `p` lies within `r`, edges included.
pub open spec fn spec_rect_contains(r: Rect, p: Point) -> bool {
    r.left <= p.x <= r.right && r.top <= p.y <= r.bottom
}

impl Rect {
    /// The bounds of a window placed at (`x`, `y`) with the given width and
    /// height, as the X server reports a window's geometry.
    pub fn from_geometry(x: i16, y: i16, width: u16, height: u16) -> (r: Rect)
        ensures
            r.left == x,
            r.top == y,
            r.right == x + width,
            r.bottom == y + height,
    {
        let left = x as i32;
        let top = y as i32;
        Rect { left, top, right: left + width as i32, bottom: top + height as i32 }
    }

    /// Whether `p` lies within these bounds, edges included.
    pub fn contains(&self, p: Point) -> (b: bool)
        ensures
            b == spec_rect_contains(*self, p),
    {
        p.x >= self.left && p.x <= self.right && p.y >= self.top && p.y <= self.bottom
    }
}

/// A point is inside a rectangle exactly when it lies between the left and
/// right edges and between the top and bottom edges; a point left of,
/// right of, above or below the rectangle is outside.
pub proof fn lemma_rect_contains_exactly(r: Rect, p: Point)
    ensures
        spec_rect_contains(r, p) <==> (r.left <= p.x && p.x <= r.right && r.top <= p.y && p.y
            <= r.bottom),
        p.x < r.left ==> !spec_rect_contains(r, p),
        p.x > r.right ==> !spec_rect_contains(r, p),
        p.y < r.top ==> !spec_rect_contains(r, p),
        p.y > r.bottom ==> !spec_rect_contains(r, p),
{
}

/// The four corners of a rectangle whose edges are in order belong to it.
pub proof fn lemma_rect_holds_its_corners(r: Rect)
    requires
        r.left <= r.right,
        r.top <= r.bottom,
    ensures
        spec_rect_contains(r, Point { x: r.left, y: r.top }),
        spec_rect_contains(r, Point { x: r.right, y: r.top }),
        spec_rect_contains(r, Point { x: r.left, y: r.bottom }),
        spec_rect_contains(r, Point { x: r.right, y: r.bottom }),
{
}

/// A window placed at (`x`, `y`) with a width and height holds exactly the
/// points from its origin to its origin plus width and height, both ends
/// included.
pub proof fn lemma_geometry_bounds_exactly(x: i16, y: i16, width: u16, height: u16, p: Point)
    ensures
        spec_rect_contains(
            Rect { left: x as i32, top: y as i32, right: (x + width) as i32, bottom: (y + height) as i32 },
            p,
        ) <==> (x <= p.x <= x + width && y <= p.y <= y + height),
{
}

} // verus!
