//! Where a widget sits on its bar, and how long it is.

use vstd::prelude::*;

verus! {

/// The axis along which a bar lays out its widgets.
#[derive(Debug, Clone, Copy, PartialEq, Eq, Structural)]
pub enum Orientation {
    Horizontal,
    Vertical,
}

/// The space that the toolkit has given to a widget.
#[derive(Debug, Clone, Copy, PartialEq, Eq, Structural)]
pub struct Allocation {
    pub width: i32,
    pub height: i32,
}

impl Allocation {
    /// The extent of the space along the axis `orientation`.
    pub open spec fn extent(self, orientation: Orientation) -> i32 {
        match orientation {
            Orientation::Horizontal => self.width,
            Orientation::Vertical => self.height,
        }
    }

    /// The extent of the space along the axis `orientation`.
    pub fn along(&self, orientation: Orientation) -> (length: i32)
        ensures
            length == self.extent(orientation),
    {
        match orientation {
            Orientation::Horizontal => self.width,
            Orientation::Vertical => self.height,
        }
    }
}

/// A coordinate as the toolkit reports it: a binary64 number, kept as its
/// bit pattern. The library passes such a number on and never computes with
/// it; the only number it makes itself is zero.
#[derive(Debug, Clone, Copy, PartialEq, Eq, Structural)]
pub struct Offset {
    /// The bit pattern of the number.
    pub bits: u64,
}

impl Offset {
    /// The number zero, whose bit pattern is all zeros.
    pub open spec fn origin() -> Offset {
        Offset { bits: 0 }
    }

    /// The number zero.
    pub fn zero() -> (offset: Self)
        ensures
            offset == Offset::origin(),
    {
        Offset { bits: 0 }
    }

    /// The number with the bit pattern `bits`.
    pub fn from_bits(bits: u64) -> (offset: Self)
        ensures
            offset.bits == bits,
    {
        Offset { bits }
    }

    /// The bit pattern of the number.
    pub fn to_bits(&self) -> (bits: u64)
        ensures
            bits == self.bits,
    {
        self.bits
    }
}

/// A point in the coordinate space of a bar's root.
#[derive(Debug, Clone, Copy, PartialEq, Eq, Structural)]
pub struct Point {
    pub x: Offset,
    pub y: Offset,
}

impl Point {
    /// The coordinate of the point on the axis `orientation`.
    pub open spec fn coordinate(self, orientation: Orientation) -> Offset {
        match orientation {
            Orientation::Horizontal => self.x,
            Orientation::Vertical => self.y,
        }
    }
}

/// What the toolkit says of a widget's layout at one moment.
#[derive(Debug, Clone, Copy, PartialEq, Eq, Structural)]
pub struct Layout {
    /// The space given to the widget.
    pub widget: Allocation,
    /// The space given to the root of the widget's bar.
    pub root: Allocation,
    /// The widget's own origin in the root's coordinate space, where the
    /// toolkit can tell.
    pub origin_in_root: Option<Point>,
}

/// A widget's size and its place relative to the start edge of its bar.
#[derive(Debug, Clone, Copy, PartialEq, Eq, Structural)]
pub struct WidgetGeometry {
    /// From the start edge of the bar to the start edge of the widget.
    pub position: Offset,
    /// The length of the widget.
    pub size: i32,
    /// The length of the bar.
    pub bar_size: i32,
}

impl Layout {
    /// The geometry that this layout gives the widget on a bar that runs
    /// along `orientation`.
    pub open spec fn resolve(self, orientation: Orientation) -> WidgetGeometry {
        WidgetGeometry {
            position: match self.origin_in_root {
                Some(origin) => origin.coordinate(orientation),
                None => Offset::origin(),
            },
            size: self.widget.extent(orientation),
            bar_size: self.root.extent(orientation),
        }
    }

    /// The geometry of the widget on a bar that runs along `orientation`.
    ///
    /// Sizes are taken along that axis. The position is the widget's origin
    /// on that axis, or zero where the toolkit cannot place the widget in its
    /// root's space.
    pub fn geometry(&self, orientation: Orientation) -> (geometry: WidgetGeometry)
        ensures
            geometry == self.resolve(orientation),
    {
        let position = match self.origin_in_root {
            Some(origin) => match orientation {
                Orientation::Horizontal => origin.x,
                Orientation::Vertical => origin.y,
            },
            None => Offset::zero(),
        };
        WidgetGeometry {
            position,
            size: self.widget.along(orientation),
            bar_size: self.root.along(orientation),
        }
    }
}

/// A widget that the toolkit cannot place in its root's space is reported at
/// position zero, with its sizes intact.
pub proof fn lemma_unplaced_widget_sits_at_zero(layout: Layout, orientation: Orientation)
    requires
        layout.origin_in_root is None,
    ensures
        layout.resolve(orientation).position == Offset::origin(),
        layout.resolve(orientation).position.bits == 0,
        layout.resolve(orientation).size == layout.widget.extent(orientation),
        layout.resolve(orientation).bar_size == layout.root.extent(orientation),
{
}

} // verus!
