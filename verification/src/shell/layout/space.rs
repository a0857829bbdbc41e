//! A two-dimensional plane holding windows in stacking order and the
//! outputs that view it.
use vstd::prelude::*;

use crate::element::WindowElement;
use crate::geometry::Point;

verus! {

/// Outputs (monitors) are known by a stable integer id.
pub type OutputId = u64;

/// The windows of a stack, bottom-most first.
pub open spec fn windows_of(s: Seq<(WindowElement, Point)>) -> Seq<WindowElement> {
    s.map_values(|e: (WindowElement, Point)| e.0)
}

/// No window occurs twice in the stack.
pub open spec fn distinct_windows(s: Seq<(WindowElement, Point)>) -> bool {
    forall|i: int, j: int| 0 <= i < s.len() && 0 <= j < s.len() && i != j ==> s[i].0 != s[j].0
}

/// No output is mapped twice.
pub open spec fn distinct_outputs(s: Seq<(OutputId, Point)>) -> bool {
    forall|i: int, j: int| 0 <= i < s.len() && 0 <= j < s.len() && i != j ==> s[i].0 != s[j].0
}

/// The stack holds window `w`.
pub open spec fn holds(s: Seq<(WindowElement, Point)>, w: WindowElement) -> bool {
    exists|i: int| 0 <= i < s.len() && s[i].0 == w
}

/// The position of window `w` in the stack (meaningful when it is held).
pub open spec fn index_in(s: Seq<(WindowElement, Point)>, w: WindowElement) -> int {
    choose|i: int| 0 <= i < s.len() && s[i].0 == w
}

/// Where window `w` is mapped, if it is.
pub open spec fn location_in(s: Seq<(WindowElement, Point)>, w: WindowElement) -> Option<Point> {
    if holds(s, w) {
        Some(s[index_in(s, w)].1)
    } else {
        None
    }
}

/// The stack with window `w` taken out.
pub open spec fn without(s: Seq<(WindowElement, Point)>, w: WindowElement) -> Seq<(WindowElement, Point)> {
    if holds(s, w) {
        s.remove(index_in(s, w))
    } else {
        s
    }
}

/// The first window, bottom-most first, whose surface is `surface`.
pub open spec fn first_with_surface(ws: Seq<WindowElement>, surface: u64) -> Option<WindowElement> {
    if exists|i: int| 0 <= i < ws.len() && ws[i].surface_of() == Some(surface) {
        let i = choose|i: int|
            0 <= i < ws.len() && ws[i].surface_of() == Some(surface) && forall|j: int|
                0 <= j < i ==> ws[j].surface_of() != Some(surface);
        Some(ws[i])
    } else {
        None
    }
}

/// Where output `o` is mapped, if it is.
pub open spec fn output_location_in(s: Seq<(OutputId, Point)>, o: OutputId) -> Option<Point> {
    if exists|i: int| 0 <= i < s.len() && s[i].0 == o {
        Some(s[choose|i: int| 0 <= i < s.len() && s[i].0 == o].1)
    } else {
        None
    }
}

/// In a stack without duplicates, the index of a held window is the one
/// where it stands.
pub proof fn lemma_index_in(s: Seq<(WindowElement, Point)>, w: WindowElement, i: int)
    requires
        distinct_windows(s),
        0 <= i < s.len(),
        s[i].0 == w,
    ensures
        holds(s, w),
        index_in(s, w) == i,
        location_in(s, w) == Some(s[i].1),
        without(s, w) == s.remove(i),
{
}

/// Taking a window out of a stack without duplicates leaves one without
/// duplicates, and every other window keeps its place and location.
pub proof fn lemma_without(s: Seq<(WindowElement, Point)>, w: WindowElement)
    requires
        distinct_windows(s),
    ensures
        distinct_windows(without(s, w)),
        !holds(without(s, w), w),
        forall|v: WindowElement| v != w ==> holds(without(s, w), v) == holds(s, v),
        forall|v: WindowElement|
            v != w ==> #[trigger] location_in(without(s, w), v) == location_in(s, v),
        holds(s, w) ==> without(s, w).len() == s.len() - 1,
        !holds(s, w) ==> without(s, w) == s,
{
    if holds(s, w) {
        let k = index_in(s, w);
        let r = s.remove(k);
        assert forall|v: WindowElement| v != w implies holds(r, v) == holds(s, v) by {
            if holds(s, v) {
                let i = index_in(s, v);
                if i < k {
                    assert(r[i].0 == v);
                } else {
                    assert(r[i - 1].0 == v);
                }
            }
            if holds(r, v) {
                let i = index_in(r, v);
                if i < k {
                    assert(s[i].0 == v);
                } else {
                    assert(s[i + 1].0 == v);
                }
            }
        }
        assert forall|v: WindowElement| v != w implies #[trigger] location_in(r, v) == location_in(s, v) by {
            if holds(s, v) {
                let i = index_in(s, v);
                if i < k {
                    assert(r[i].0 == v);
                    lemma_index_in(r, v, i);
                } else {
                    assert(r[i - 1].0 == v);
                    lemma_index_in(r, v, i - 1);
                }
            }
        }
        assert(!holds(r, w)) by {
            if holds(r, w) {
                let i = index_in(r, w);
                if i < k {
                    assert(s[i].0 == w);
                } else {
                    assert(s[i + 1].0 == w);
                }
            }
        }
    }
}

/// After `w` is put on top at some location, the stack holds `w` and the
/// windows it held before.
pub proof fn lemma_map_holds(s: Seq<(WindowElement, Point)>, w: WindowElement, location: Point)
    requires
        distinct_windows(s),
    ensures
        forall|v: WindowElement| #[trigger] holds(without(s, w).push((w, location)), v) == (v == w || holds(s, v)),
{
    lemma_without(s, w);
    let r = without(s, w);
    let t = r.push((w, location));
    assert forall|v: WindowElement| #[trigger] holds(t, v) == (v == w || holds(s, v)) by {
        if holds(t, v) {
            let i = choose|i: int| 0 <= i < t.len() && t[i].0 == v;
            if i < t.len() - 1 {
                assert(r[i].0 == v);
                assert(holds(r, v));
            }
        }
        if v == w {
            assert(t[t.len() - 1].0 == v);
        } else if holds(s, v) {
            assert(holds(r, v));
            let j = choose|j: int| 0 <= j < r.len() && r[j].0 == v;
            assert(t[j].0 == v);
        }
    }
}

/// Unmapping a window right after mapping it leaves the stack as
/// unmapping alone would; for a window that was not mapped, as it was.
pub proof fn law_unmap_undoes_map(s: Seq<(WindowElement, Point)>, w: WindowElement, location: Point)
    requires
        distinct_windows(s),
    ensures
        without(without(s, w).push((w, location)), w) == without(s, w),
        !holds(s, w) ==> without(without(s, w).push((w, location)), w) == s,
{
    lemma_without(s, w);
    let r = without(s, w);
    let t = r.push((w, location));
    assert(distinct_windows(t)) by {
        assert forall|i: int, j: int| 0 <= i < t.len() && 0 <= j < t.len() && i != j implies t[i].0 != t[j].0 by {
            if i == t.len() - 1 {
                assert(t[j] == r[j]);
                if t[j].0 == w {
                    assert(holds(r, w));
                }
            } else if j == t.len() - 1 {
                assert(t[i] == r[i]);
                if t[i].0 == w {
                    assert(holds(r, w));
                }
            } else {
                assert(t[i] == r[i] && t[j] == r[j]);
            }
        }
    }
    lemma_index_in(t, w, t.len() - 1);
    assert(t.remove(t.len() - 1) =~= r);
}

/// Mapping `w` at `location` puts it there and leaves every other window
/// where it was.
pub proof fn lemma_map_locations(s: Seq<(WindowElement, Point)>, w: WindowElement, location: Point)
    requires
        distinct_windows(s),
    ensures
        location_in(without(s, w).push((w, location)), w) == Some(location),
        forall|v: WindowElement| v != w ==> #[trigger] location_in(without(s, w).push((w, location)), v)
            == location_in(s, v),
{
    lemma_map_holds(s, w, location);
    lemma_without(s, w);
    let r = without(s, w);
    let t = r.push((w, location));
    assert(distinct_windows(t)) by {
        assert forall|i: int, j: int| 0 <= i < t.len() && 0 <= j < t.len() && i != j implies t[i].0 != t[j].0 by {
            if i == t.len() - 1 {
                assert(t[j] == r[j]);
                if t[j].0 == w {
                    assert(holds(r, w));
                }
            } else if j == t.len() - 1 {
                assert(t[i] == r[i]);
                if t[i].0 == w {
                    assert(holds(r, w));
                }
            } else {
                assert(t[i] == r[i] && t[j] == r[j]);
            }
        }
    }
    lemma_index_in(t, w, t.len() - 1);
    assert forall|v: WindowElement| v != w implies #[trigger] location_in(t, v) == location_in(s, v) by {
        if holds(r, v) {
            let i = index_in(r, v);
            assert(t[i] == r[i]);
            lemma_index_in(t, v, i);
            lemma_index_in(r, v, i);
        } else {
            assert(!holds(t, v));
        }
    }
}

/// Raising a window changes neither which windows the stack holds nor
/// where any of them is.
pub proof fn law_raise_keeps_windows_and_locations(s: Seq<(WindowElement, Point)>, w: WindowElement)
    requires
        distinct_windows(s),
        holds(s, w),
    ensures
        forall|v: WindowElement| #[trigger] holds(without(s, w).push((w, location_in(s, w)->0)), v) == holds(s, v),
        forall|v: WindowElement| #[trigger] location_in(without(s, w).push((w, location_in(s, w)->0)), v) == location_in(s, v),
{
    let loc = location_in(s, w)->0;
    lemma_map_holds(s, w, loc);
    lemma_without(s, w);
    let r = without(s, w);
    let t = r.push((w, loc));
    assert(distinct_windows(t)) by {
        assert forall|i: int, j: int| 0 <= i < t.len() && 0 <= j < t.len() && i != j implies t[i].0 != t[j].0 by {
            if i == t.len() - 1 {
                assert(t[j] == r[j]);
                if t[j].0 == w {
                    assert(holds(r, w));
                }
            } else if j == t.len() - 1 {
                assert(t[i] == r[i]);
                if t[i].0 == w {
                    assert(holds(r, w));
                }
            } else {
                assert(t[i] == r[i] && t[j] == r[j]);
            }
        }
    }
    assert forall|v: WindowElement| #[trigger] location_in(t, v) == location_in(s, v) by {
        if v == w {
            lemma_index_in(t, w, t.len() - 1);
        } else if holds(r, v) {
            let i = index_in(r, v);
            assert(t[i] == r[i]);
            lemma_index_in(t, v, i);
            lemma_index_in(r, v, i);
        } else {
            assert(!holds(t, v));
        }
    }
}

/// The first window of `windows` whose surface is `surface`.
pub fn find_by_surface(windows: &Vec<WindowElement>, surface: u64) -> (r: Option<WindowElement>)
    ensures
        r == first_with_surface(windows@, surface),
{
    let mut i: usize = 0;
    while i < windows.len()
        invariant
            i <= windows@.len(),
            forall|j: int| 0 <= j < i ==> windows@[j].surface_of() != Some(surface),
        decreases windows@.len() - i,
    {
        let e = windows[i];
        if e.wl_surface() == Some(surface) {
            proof {
                let ws = windows@;
                let k = choose|k: int|
                    0 <= k < ws.len() && ws[k].surface_of() == Some(surface) && forall|j: int|
                        0 <= j < k ==> ws[j].surface_of() != Some(surface);
                assert(0 <= i < ws.len() && ws[i as int].surface_of() == Some(surface));
                assert(k == i);
            }
            return Some(e);
        }
        i = i + 1;
    }
    None
}

/// The top-most window of the stack `s` among `hits`, with its location.
pub open spec fn topmost_hit(s: Seq<(WindowElement, Point)>, hits: Seq<WindowElement>) -> Option<(WindowElement, Point)>
    decreases s.len(),
{
    if s.len() == 0 {
        None
    } else if hits.contains(s.last().0) {
        Some(s.last())
    } else {
        topmost_hit(s.drop_last(), hits)
    }
}

/// Whether `w` is among `hits`.
fn is_hit(hits: &[WindowElement], w: WindowElement) -> (r: bool)
    ensures
        r == hits@.contains(w),
{
    let mut i: usize = 0;
    while i < hits.len()
        invariant
            i <= hits@.len(),
            forall|j: int| 0 <= j < i ==> hits@[j] != w,
        decreases hits@.len() - i,
    {
        if hits[i] == w {
            assert(hits@[i as int] == w);
            return true;
        }
        i = i + 1;
    }
    false
}

/// A plane of windows and outputs. Windows are kept in stacking order,
/// bottom-most first; each window and each output occurs at most once.
pub struct Space {
    elements: Vec<(WindowElement, Point)>,
    outputs: Vec<(OutputId, Point)>,
}

impl Space {
    /// The windows with their locations, bottom-most first.
    pub closed spec fn stack(&self) -> Seq<(WindowElement, Point)> {
        self.elements@
    }

    /// The mapped outputs with their locations, in the order they were mapped.
    pub closed spec fn mapped_outputs(&self) -> Seq<(OutputId, Point)> {
        self.outputs@
    }

    pub open spec fn wf(&self) -> bool {
        &&& distinct_windows(self.stack())
        &&& distinct_outputs(self.mapped_outputs())
    }

    pub fn new() -> (s: Space)
        ensures
            s.wf(),
            s.stack() == Seq::<(WindowElement, Point)>::empty(),
            s.mapped_outputs() == Seq::<(OutputId, Point)>::empty(),
    {
        Space { elements: Vec::new(), outputs: Vec::new() }
    }

    /// The position of `w` in the stack, if it is there.
    fn find(&self, w: &WindowElement) -> (r: Option<usize>)
        requires
            self.wf(),
        ensures
            match r {
                Some(i) => i < self.stack().len() && self.stack()[i as int].0 == *w,
                None => !holds(self.stack(), *w),
            },
    {
        let mut i: usize = 0;
        while i < self.elements.len()
            invariant
                i <= self.elements@.len(),
                forall|j: int| 0 <= j < i ==> self.elements@[j].0 != *w,
            decreases self.elements@.len() - i,
        {
            if self.elements[i].0 == *w {
                return Some(i);
            }
            i = i + 1;
        }
        None
    }

    /// The top-most window among `hits` (the windows whose input region
    /// holds the pointer), with its location.
    pub fn element_under(&self, hits: &[WindowElement]) -> (r: Option<(WindowElement, Point)>)
        ensures
            r == topmost_hit(self.stack(), hits@),
    {
        let mut i: usize = self.elements.len();
        assert(self.elements@.take(i as int) =~= self.elements@);
        while i > 0
            invariant
                i <= self.elements@.len(),
                topmost_hit(self.elements@, hits@) == topmost_hit(self.elements@.take(i as int), hits@),
            decreases i,
        {
            let (w, p) = self.elements[i - 1];
            proof {
                let t = self.elements@.take(i as int);
                assert(t.last() == self.elements@[i - 1]);
                assert(t.drop_last() =~= self.elements@.take(i - 1));
            }
            if is_hit(hits, w) {
                return Some((w, p));
            }
            i = i - 1;
        }
        None
    }

    /// The windows, bottom-most first.
    pub fn elements(&self) -> (r: Vec<WindowElement>)
        ensures
            r@ == windows_of(self.stack()),
    {
        let mut r: Vec<WindowElement> = Vec::new();
        let mut i: usize = 0;
        while i < self.elements.len()
            invariant
                i <= self.elements@.len(),
                r@ == windows_of(self.elements@.take(i as int)),
            decreases self.elements@.len() - i,
        {
            r.push(self.elements[i].0);
            assert(self.elements@.take(i + 1) == self.elements@.take(i as int).push(self.elements@[i as int]));
            i = i + 1;
        }
        assert(self.elements@.take(i as int) == self.elements@);
        r
    }

    /// The mapped outputs, in the order they were mapped.
    pub fn outputs(&self) -> (r: Vec<OutputId>)
        ensures
            r@ == self.mapped_outputs().map_values(|o: (OutputId, Point)| o.0),
    {
        let mut r: Vec<OutputId> = Vec::new();
        let mut i: usize = 0;
        while i < self.outputs.len()
            invariant
                i <= self.outputs@.len(),
                r@ == self.outputs@.take(i as int).map_values(|o: (OutputId, Point)| o.0),
            decreases self.outputs@.len() - i,
        {
            r.push(self.outputs[i].0);
            assert(self.outputs@.take(i + 1) == self.outputs@.take(i as int).push(self.outputs@[i as int]));
            i = i + 1;
        }
        assert(self.outputs@.take(i as int) == self.outputs@);
        r
    }

    /// Whether window `w` is mapped.
    pub fn contains(&self, w: &WindowElement) -> (r: bool)
        requires
            self.wf(),
        ensures
            r == holds(self.stack(), *w),
    {
        self.find(w).is_some()
    }

    /// Where window `w` is mapped, if it is.
    pub fn element_location(&self, w: &WindowElement) -> (r: Option<Point>)
        requires
            self.wf(),
        ensures
            r == location_in(self.stack(), *w),
    {
        match self.find(w) {
            Some(i) => {
                proof {
                    lemma_index_in(self.stack(), *w, i as int);
                }
                Some(self.elements[i].1)
            },
            None => None,
        }
    }

    /// The bottom-most window whose surface is `surface`.
    pub fn element_for_surface(&self, surface: u64) -> (r: Option<WindowElement>)
        ensures
            r == first_with_surface(windows_of(self.stack()), surface),
    {
        let ghost ws = windows_of(self.stack());
        let mut i: usize = 0;
        while i < self.elements.len()
            invariant
                i <= self.elements@.len(),
                ws == windows_of(self.elements@),
                forall|j: int| 0 <= j < i ==> ws[j].surface_of() != Some(surface),
            decreases self.elements@.len() - i,
        {
            let e = self.elements[i].0;
            if e.wl_surface() == Some(surface) {
                proof {
                    let k = choose|k: int|
                        0 <= k < ws.len() && ws[k].surface_of() == Some(surface) && forall|j: int|
                            0 <= j < k ==> ws[j].surface_of() != Some(surface);
                    assert(0 <= i < ws.len() && ws[i as int].surface_of() == Some(surface));
                    assert(k == i);
                }
                return Some(e);
            }
            i = i + 1;
        }
        None
    }

    /// Puts `w` on top of the stack at `location`, taking it out of its
    /// former place if it was mapped already.
    pub fn map_element(&mut self, w: WindowElement, location: Point)
        requires
            old(self).wf(),
        ensures
            final(self).wf(),
            final(self).stack() == without(old(self).stack(), w).push((w, location)),
            final(self).mapped_outputs() == old(self).mapped_outputs(),
    {
        proof {
            lemma_without(self.stack(), w);
        }
        let ghost before = self.stack();
        match self.find(&w) {
            Some(i) => {
                proof {
                    lemma_index_in(self.stack(), w, i as int);
                }
                self.elements.remove(i);
            },
            None => {},
        }
        assert(self.elements@ == without(before, w));
        self.elements.push((w, location));
        proof {
            let s = self.elements@;
            let r = without(before, w);
            assert(s.drop_last() == r);
            assert forall|i: int, j: int| 0 <= i < s.len() && 0 <= j < s.len() && i != j implies s[i].0 != s[j].0 by {
                if i == s.len() - 1 {
                    assert(s[j] == r[j]);
                    if s[j].0 == w {
                        assert(holds(r, w));
                    }
                } else if j == s.len() - 1 {
                    assert(s[i] == r[i]);
                    if s[i].0 == w {
                        assert(holds(r, w));
                    }
                } else {
                    assert(s[i] == r[i] && s[j] == r[j]);
                }
            }
        }
    }

    /// Takes `w` out of the stack; the others keep their order.
    pub fn unmap_elem(&mut self, w: &WindowElement)
        requires
            old(self).wf(),
        ensures
            final(self).wf(),
            final(self).stack() == without(old(self).stack(), *w),
            final(self).mapped_outputs() == old(self).mapped_outputs(),
    {
        proof {
            lemma_without(self.stack(), *w);
        }
        match self.find(w) {
            Some(i) => {
                proof {
                    lemma_index_in(self.stack(), *w, i as int);
                }
                self.elements.remove(i);
            },
            None => {},
        }
    }

    /// Moves `w` to the top of the stack, keeping its location.
    pub fn raise_element(&mut self, w: &WindowElement)
        requires
            old(self).wf(),
        ensures
            final(self).wf(),
            final(self).stack() == (if holds(old(self).stack(), *w) {
                without(old(self).stack(), *w).push((*w, location_in(old(self).stack(), *w)->0))
            } else {
                old(self).stack()
            }),
            final(self).mapped_outputs() == old(self).mapped_outputs(),
    {
        match self.element_location(w) {
            Some(location) => {
                self.map_element(*w, location);
            },
            None => {},
        }
    }

    /// Maps `output` at `location`; an output mapped already keeps its
    /// place in the order and gets the new location.
    pub fn map_output(&mut self, output: OutputId, location: Point)
        requires
            old(self).wf(),
        ensures
            final(self).wf(),
            final(self).stack() == old(self).stack(),
            output_location_in(final(self).mapped_outputs(), output) == Some(location),
            (exists|i: int| 0 <= i < old(self).mapped_outputs().len() && old(self).mapped_outputs()[i].0 == output) ==>
                final(self).mapped_outputs().len() == old(self).mapped_outputs().len()
                && forall|i: int| 0 <= i < old(self).mapped_outputs().len() ==>
                    #[trigger] final(self).mapped_outputs()[i] == if old(self).mapped_outputs()[i].0 == output {
                        (output, location)
                    } else {
                        old(self).mapped_outputs()[i]
                    },
            !(exists|i: int| 0 <= i < old(self).mapped_outputs().len() && old(self).mapped_outputs()[i].0 == output) ==>
                final(self).mapped_outputs() == old(self).mapped_outputs().push((output, location)),
    {
        let mut i: usize = 0;
        while i < self.outputs.len()
            invariant
                i <= self.outputs@.len(),
                forall|j: int| 0 <= j < i ==> self.outputs@[j].0 != output,
                self.outputs@ == old(self).outputs@,
                self.elements@ == old(self).elements@,
                old(self).wf(),
            decreases self.outputs@.len() - i,
        {
            if self.outputs[i].0 == output {
                let ghost before = self.outputs@;
                self.outputs.set(i, (output, location));
                proof {
                    let s = self.outputs@;
                    assert(s[i as int].0 == output);
                    assert forall|k: int| 0 <= k < s.len() && s[k].0 == output implies k == i by {
                        if k != i {
                            assert(before[k].0 == before[i as int].0);
                        }
                    }
                    assert(output_location_in(s, output) == Some(location));
                    assert(forall|a: int, b: int| 0 <= a < s.len() && 0 <= b < s.len() && a != b ==>
                        s[a].0 == before[a].0 && s[b].0 == before[b].0);
                }
                return;
            }
            i = i + 1;
        }
        self.outputs.push((output, location));
        proof {
            let s = self.outputs@;
            let k = s.len() - 1;
            assert(s[k].0 == output);
            assert forall|j: int| 0 <= j < s.len() && s[j].0 == output implies j == k by {
                if j != k {
                    assert(s[j] == old(self).outputs@[j]);
                }
            }
            assert(output_location_in(s, output) == Some(location));
            assert forall|a: int, b: int| 0 <= a < s.len() && 0 <= b < s.len() && a != b implies s[a].0 != s[b].0 by {
                if a != k && b != k {
                    assert(s[a] == old(self).outputs@[a] && s[b] == old(self).outputs@[b]);
                } else if a == k {
                    assert(s[b] == old(self).outputs@[b]);
                } else {
                    assert(s[a] == old(self).outputs@[a]);
                }
            }
        }
    }

    /// Unmaps `output`; the others keep their order.
    pub fn unmap_output(&mut self, output: OutputId)
        requires
            old(self).wf(),
        ensures
            final(self).wf(),
            final(self).stack() == old(self).stack(),
            final(self).mapped_outputs() == old(self).mapped_outputs().filter(|o: (OutputId, Point)| o.0 != output),
    {
        let ghost pred = |o: (OutputId, Point)| o.0 != output;
        let mut kept: Vec<(OutputId, Point)> = Vec::new();
        let mut i: usize = 0;
        while i < self.outputs.len()
            invariant
                i <= self.outputs@.len(),
                pred == (|o: (OutputId, Point)| o.0 != output),
                kept@ == self.outputs@.take(i as int).filter(pred),
                forall|a: int, b: int| 0 <= a < kept@.len() && 0 <= b < kept@.len() && a != b ==> kept@[a].0 != kept@[b].0,
                forall|a: int| 0 <= a < kept@.len() ==> self.outputs@.take(i as int).contains(#[trigger] kept@[a]),
                distinct_outputs(self.outputs@),
            decreases self.outputs@.len() - i,
        {
            let o = self.outputs[i];
            let ghost prev = kept@;
            proof {
                self.outputs@.take(i as int).lemma_filter_push(o, pred);
                assert(self.outputs@.take(i + 1) == self.outputs@.take(i as int).push(o));
                assert(pred(o) == (o.0 != output));
            }
            if o.0 != output {
                proof {
                    assert forall|a: int| 0 <= a < kept@.len() implies kept@[a].0 != o.0 by {
                        let j = choose|j: int| 0 <= j < self.outputs@.take(i as int).len() && self.outputs@.take(i as int)[j] == kept@[a];
                        assert(self.outputs@[j] == kept@[a]);
                    }
                }
                kept.push(o);
            }
            proof {
                let t = self.outputs@.take(i + 1);
                assert forall|a: int| 0 <= a < kept@.len() implies t.contains(#[trigger] kept@[a]) by {
                    if a < prev.len() {
                        let j = choose|j: int| 0 <= j < self.outputs@.take(i as int).len() && self.outputs@.take(i as int)[j] == prev[a];
                        assert(t[j] == kept@[a]);
                    } else {
                        assert(t[i as int] == kept@[a]);
                    }
                }
            }
            i = i + 1;
        }
        assert(self.outputs@.take(i as int) == self.outputs@);
        self.outputs = kept;
    }

    /// Moves the window at position `i` of the stack to `location`,
    /// leaving the stacking order as it is.
    pub fn set_location_at(&mut self, i: usize, location: Point)
        requires
            old(self).wf(),
            i < old(self).stack().len(),
        ensures
            final(self).wf(),
            final(self).stack() == old(self).stack().update(i as int, (old(self).stack()[i as int].0, location)),
            final(self).mapped_outputs() == old(self).mapped_outputs(),
    {
        let w = self.elements[i].0;
        self.elements.set(i, (w, location));
        assert forall|a: int| 0 <= a < self.elements@.len() implies #[trigger] self.elements@[a].0 == old(self).elements@[a].0 by {}
    }

    /// Where `output` is mapped, if it is.
    pub fn output_location(&self, output: OutputId) -> (r: Option<Point>)
        requires
            self.wf(),
        ensures
            r == output_location_in(self.mapped_outputs(), output),
    {
        let mut i: usize = 0;
        while i < self.outputs.len()
            invariant
                i <= self.outputs@.len(),
                forall|j: int| 0 <= j < i ==> self.outputs@[j].0 != output,
                self.wf(),
            decreases self.outputs@.len() - i,
        {
            if self.outputs[i].0 == output {
                proof {
                    let s = self.outputs@;
                    assert forall|k: int| 0 <= k < s.len() && s[k].0 == output implies k == i by {}
                }
                return Some(self.outputs[i].1);
            }
            i = i + 1;
        }
        None
    }
}

} // verus!
