//! Pointer constraints: a client may lock the pointer in place over its
//! surface, or confine it to the surface or to a region of it.
use vstd::prelude::*;

use crate::geometry::{fits_i32, Point, Rectangle};

verus! {

/// Whether a rectangle of a region adds to it or takes away from it.
#[derive(Debug, Clone, Copy, PartialEq, Eq, Structural)]
pub enum RectangleKind {
    Add,
    Subtract,
}

/// A region of a surface, in surface coordinates: rectangles added to it or
/// taken from it, in order.
#[derive(Debug, Clone)]
pub struct Region {
    pub rects: Vec<(RectangleKind, Rectangle)>,
}

/// Whether rectangle `r` contains point `p`: its left and top edges are in,
/// its right and bottom edges out.
pub open spec fn rect_contains(r: Rectangle, p: Point) -> bool {
    r.loc.x <= p.x < r.loc.x + r.size.w && r.loc.y <= p.y < r.loc.y + r.size.h
}

/// Whether `p` is in the region made of `rects`: the last rectangle that
/// contains it decides, and a point that none contains is out.
pub open spec fn region_contains(rects: Seq<(RectangleKind, Rectangle)>, p: Point) -> bool
    decreases rects.len(),
{
    if rects.len() == 0 {
        false
    } else if rect_contains(rects.last().1, p) {
        rects.last().0 == RectangleKind::Add
    } else {
        region_contains(rects.drop_last(), p)
    }
}

/// A point of a region lies inside one of its added rectangles: at or
/// right of its left edge and left of its right edge, at or below its top
/// edge and above its bottom edge.
pub proof fn law_region_points_lie_in_added_rectangles(rects: Seq<(RectangleKind, Rectangle)>, p: Point)
    ensures
        region_contains(rects, p) ==> exists|i: int|
            0 <= i < rects.len() && rects[i].0 == RectangleKind::Add && rects[i].1.loc.x <= p.x && p.x
                < rects[i].1.loc.x + rects[i].1.size.w && rects[i].1.loc.y <= p.y && p.y < rects[i].1.loc.y
                + rects[i].1.size.h,
    decreases rects.len(),
{
    if rects.len() > 0 && region_contains(rects, p) {
        let n = rects.len() - 1;
        if rect_contains(rects.last().1, p) {
            assert(rects[n] == rects.last());
        } else {
            law_region_points_lie_in_added_rectangles(rects.drop_last(), p);
            let i = choose|i: int|
                0 <= i < rects.drop_last().len() && rects.drop_last()[i].0 == RectangleKind::Add
                    && rects.drop_last()[i].1.loc.x <= p.x && p.x < rects.drop_last()[i].1.loc.x
                    + rects.drop_last()[i].1.size.w && rects.drop_last()[i].1.loc.y <= p.y && p.y
                    < rects.drop_last()[i].1.loc.y + rects.drop_last()[i].1.size.h;
            assert(rects.drop_last()[i] == rects[i]);
        }
    }
}

/// A point inside an added rectangle of a region (by the same bounds) is
/// in the region, unless a later rectangle holds it too.
pub proof fn law_region_holds_points_of_last_added_rectangle(
    rects: Seq<(RectangleKind, Rectangle)>,
    p: Point,
    i: int,
)
    requires
        0 <= i < rects.len(),
        rects[i].0 == RectangleKind::Add,
        rects[i].1.loc.x <= p.x < rects[i].1.loc.x + rects[i].1.size.w,
        rects[i].1.loc.y <= p.y < rects[i].1.loc.y + rects[i].1.size.h,
        forall|j: int| i < j < rects.len() ==> !(#[trigger] rects[j].1.loc.x <= p.x < rects[j].1.loc.x
            + rects[j].1.size.w && rects[j].1.loc.y <= p.y < rects[j].1.loc.y + rects[j].1.size.h),
    ensures
        region_contains(rects, p),
    decreases rects.len(),
{
    let n = rects.len() - 1;
    assert(rects.last() == rects[n]);
    if i < n {
        assert(!rect_contains(rects[n].1, p));
        let d = rects.drop_last();
        assert(d[i] == rects[i]);
        assert forall|j: int| i < j < d.len() implies !(#[trigger] d[j].1.loc.x <= p.x < d[j].1.loc.x
            + d[j].1.size.w && d[j].1.loc.y <= p.y < d[j].1.loc.y + d[j].1.size.h) by {
            assert(d[j] == rects[j]);
        }
        law_region_holds_points_of_last_added_rectangle(d, p, i);
    }
}

/// `p` relative to `origin`.
pub open spec fn relative(p: Point, origin: Point) -> Point {
    Point { x: (p.x - origin.x) as i32, y: (p.y - origin.y) as i32 }
}

/// Whether `relative(p, origin)` fits in `i32`.
pub open spec fn relative_fits(p: Point, origin: Point) -> bool {
    fits_i32(p.x - origin.x) && fits_i32(p.y - origin.y)
}

/// Whether a constraint with region `region` takes effect at `local`: a
/// constraint without a region covers the whole surface.
pub open spec fn applies_at(region: Option<Region>, local: Point) -> bool {
    match region {
        Some(r) => region_contains(r.rects@, local),
        None => true,
    }
}

/// A pointer constraint that a client placed on one of its surfaces.
#[derive(Debug, Clone)]
pub struct PointerConstraint {
    /// Whether the constraint is in effect now.
    pub active: bool,
    /// A lock (the pointer stays put) rather than a confinement.
    pub locked: bool,
    /// Where on the surface the constraint holds; everywhere when `None`.
    pub region: Option<Region>,
}

/// How the pointer may move.
#[derive(Debug, Clone, Copy, PartialEq, Eq, Structural)]
pub enum ConstraintMode {
    /// As the device says.
    Free,
    /// Not at all: only the relative motion is reported.
    Locked,
    /// Within the surface it is over and the constraint's region.
    Confined,
}

/// Whether `region` contains `p`.
pub fn region_contains_point(region: &Region, p: Point) -> (r: bool)
    ensures
        r == region_contains(region.rects@, p),
{
    let mut inside = false;
    let mut i: usize = 0;
    while i < region.rects.len()
        invariant
            i <= region.rects@.len(),
            inside == region_contains(region.rects@.take(i as int), p),
        decreases region.rects@.len() - i,
    {
        let (kind, r) = region.rects[i];
        let x = p.x as i64;
        let y = p.y as i64;
        let hit = r.loc.x as i64 <= x && x < r.loc.x as i64 + r.size.w as i64 && r.loc.y as i64 <= y && y
            < r.loc.y as i64 + r.size.h as i64;
        proof {
            let t = region.rects@.take(i + 1);
            assert(t.drop_last() =~= region.rects@.take(i as int));
            assert(t.last() == region.rects@[i as int]);
        }
        if hit {
            inside = match kind {
                RectangleKind::Add => true,
                RectangleKind::Subtract => false,
            };
        }
        i = i + 1;
    }
    assert(region.rects@.take(i as int) =~= region.rects@);
    inside
}

fn applies(region: &Option<Region>, local: Point) -> (r: bool)
    ensures
        r == applies_at(*region, local),
{
    match region {
        Some(r) => region_contains_point(r, local),
        None => true,
    }
}

/// How the constraint of the surface under the pointer acts on a relative
/// motion, with the pointer at `pointer` and the surface at `surface_loc`:
/// an active constraint whose region holds the pointer locks or confines
/// it; otherwise the pointer is free.
pub fn constraint_mode(constraint: &Option<PointerConstraint>, pointer: Point, surface_loc: Point) -> (r: ConstraintMode)
    requires
        relative_fits(pointer, surface_loc),
    ensures
        r == match *constraint {
            Some(c) => if c.active && applies_at(c.region, relative(pointer, surface_loc)) {
                if c.locked {
                    ConstraintMode::Locked
                } else {
                    ConstraintMode::Confined
                }
            } else {
                ConstraintMode::Free
            },
            None => ConstraintMode::Free,
        },
{
    match constraint {
        Some(c) => {
            let local = Point { x: pointer.x - surface_loc.x, y: pointer.y - surface_loc.y };
            if c.active && applies(&c.region, local) {
                if c.locked {
                    ConstraintMode::Locked
                } else {
                    ConstraintMode::Confined
                }
            } else {
                ConstraintMode::Free
            }
        },
        None => ConstraintMode::Free,
    }
}

/// Whether a confined pointer may go to `new_pointer`: it must stay over
/// the surface it was over (`surface`, with `new_surface` the one under the
/// new position) and, when the constraint has a region, inside it, for the
/// surface at `surface_loc`. Otherwise the motion is dropped.
pub fn confined_motion_allowed(
    surface: Option<u64>,
    new_surface: Option<u64>,
    region: &Option<Region>,
    new_pointer: Point,
    surface_loc: Point,
) -> (r: bool)
    requires
        relative_fits(new_pointer, surface_loc),
    ensures
        r == (new_surface == surface && applies_at(*region, relative(new_pointer, surface_loc))),
{
    let same = match (new_surface, surface) {
        (Some(a), Some(b)) => a == b,
        (None, None) => true,
        _ => false,
    };
    if !same {
        return false;
    }
    applies(region, Point { x: new_pointer.x - surface_loc.x, y: new_pointer.y - surface_loc.y })
}

/// Whether the constraint of the surface now under the pointer, at
/// `surface_loc`, is to be made active: it is not active yet and its region
/// holds the pointer at `pointer`.
pub fn activates(constraint: &Option<PointerConstraint>, pointer: Point, surface_loc: Point) -> (r: bool)
    requires
        relative_fits(pointer, surface_loc),
    ensures
        r == match *constraint {
            Some(c) => !c.active && applies_at(c.region, relative(pointer, surface_loc)),
            None => false,
        },
{
    match constraint {
        Some(c) => !c.active && applies(&c.region, Point { x: pointer.x - surface_loc.x, y: pointer.y - surface_loc.y }),
        None => false,
    }
}

} // verus!
