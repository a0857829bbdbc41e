//! The floating layer: windows placed freely and stacked.
use vstd::prelude::*;

use crate::element::WindowElement;
use crate::geometry::Point;
use crate::shell::layout::space::{distinct_outputs, distinct_windows, first_with_surface, holds, location_in, output_location_in, windows_of, without, OutputId, Space};

verus! {

/// Windows that float above the tiled ones, each at a location of its own.
pub struct FloatingLayout {
    space: Space,
}

impl FloatingLayout {
    /// The floating windows with their locations, bottom-most first.
    pub closed spec fn stack(&self) -> Seq<(WindowElement, Point)> {
        self.space.stack()
    }

    /// The outputs the layer is mapped on.
    pub closed spec fn mapped_outputs(&self) -> Seq<(OutputId, Point)> {
        self.space.mapped_outputs()
    }

    pub open spec fn wf(&self) -> bool {
        &&& distinct_windows(self.stack())
        &&& distinct_outputs(self.mapped_outputs())
    }

    pub fn new() -> (l: FloatingLayout)
        ensures
            l.wf(),
            l.stack() == Seq::<(WindowElement, Point)>::empty(),
            l.mapped_outputs() == Seq::<(OutputId, Point)>::empty(),
    {
        FloatingLayout { space: Space::new() }
    }

    pub fn elements(&self) -> (r: Vec<WindowElement>)
        ensures
            r@ == windows_of(self.stack()),
    {
        self.space.elements()
    }

    pub fn outputs(&self) -> (r: Vec<OutputId>)
        ensures
            r@ == self.mapped_outputs().map_values(|o: (OutputId, Point)| o.0),
    {
        self.space.outputs()
    }

    pub fn element_for_surface(&self, surface: u64) -> (r: Option<WindowElement>)
        ensures
            r == first_with_surface(windows_of(self.stack()), surface),
    {
        self.space.element_for_surface(surface)
    }

    pub fn map_output(&mut self, output: OutputId, location: Point)
        requires
            old(self).wf(),
        ensures
            final(self).wf(),
            final(self).stack() == old(self).stack(),
            output_location_in(final(self).mapped_outputs(), output) == Some(location),
            old(self).mapped_outputs().len() == 0 ==> final(self).mapped_outputs() == seq![(output, location)],
    {
        self.space.map_output(output, location);
    }

    pub fn unmap_output(&mut self, output: OutputId)
        requires
            old(self).wf(),
        ensures
            final(self).wf(),
            final(self).stack() == old(self).stack(),
            final(self).mapped_outputs() == old(self).mapped_outputs().filter(|o: (OutputId, Point)| o.0 != output),
    {
        self.space.unmap_output(output);
    }

    /// Takes `window` out of the layer and tells whether it was there.
    pub fn unmap_element(&mut self, window: &WindowElement) -> (was_mapped: bool)
        requires
            old(self).wf(),
        ensures
            final(self).wf(),
            was_mapped == holds(old(self).stack(), *window),
            final(self).stack() == without(old(self).stack(), *window),
            final(self).mapped_outputs() == old(self).mapped_outputs(),
    {
        let was_mapped = self.space.contains(window);
        self.space.unmap_elem(window);
        was_mapped
    }

    pub fn element_location(&self, window: &WindowElement) -> (r: Option<Point>)
        requires
            self.wf(),
        ensures
            r == location_in(self.stack(), *window),
    {
        self.space.element_location(window)
    }

    pub fn contains(&self, window: &WindowElement) -> (r: bool)
        requires
            self.wf(),
        ensures
            r == holds(self.stack(), *window),
    {
        self.space.contains(window)
    }

    /// Brings `window` to the top of the layer.
    pub fn raise_element(&mut self, window: &WindowElement)
        requires
            old(self).wf(),
        ensures
            final(self).wf(),
            final(self).stack() == (if holds(old(self).stack(), *window) {
                without(old(self).stack(), *window).push((*window, location_in(old(self).stack(), *window)->0))
            } else {
                old(self).stack()
            }),
            final(self).mapped_outputs() == old(self).mapped_outputs(),
    {
        self.space.raise_element(window);
    }

    /// Places `window` on top of the layer at `location`.
    pub fn map_element(&mut self, window: WindowElement, location: Point)
        requires
            old(self).wf(),
        ensures
            final(self).wf(),
            final(self).stack() == without(old(self).stack(), window).push((window, location)),
            final(self).mapped_outputs() == old(self).mapped_outputs(),
    {
        self.space.map_element(window, location);
    }

    pub fn space(&self) -> (r: &Space)
        ensures
            r.stack() == self.stack(),
            r.mapped_outputs() == self.mapped_outputs(),
    {
        &self.space
    }
}

} // verus!
