use vstd::prelude::*;
use crate::geometry::{Bounds, Matrix, pivot_fits, pivot_in_range};

verus! {

/// How a shape's layer is composited by the surrounding scene traversal.
#[derive(Clone, Copy, Debug, PartialEq, Eq, Structural)]
pub enum BlendMode {
    Normal,
    Multiply,
    Screen,
    Overlay,
    Darken,
    Lighten,
}

/// One colour stop of a gradient; `offset` counts thousandths of the gradient line.
#[derive(Clone, Copy, Debug, PartialEq, Eq, Structural)]
pub struct GradientStop {
    pub offset: u16,
    pub color: u32,
}

/// A fill entry. Colours are packed ARGB.
#[derive(Clone, Debug)]
pub enum Fill {
    Solid { color: u32 },
    Gradient { start_x: i32, start_y: i32, end_x: i32, end_y: i32, stops: Vec<GradientStop> },
    Image { id: u128, width: u32, height: u32, alpha: u8 },
}

/// One command of a path's geometry, in local units.
#[derive(Clone, Copy, Debug, PartialEq, Eq, Structural)]
pub enum Segment {
    MoveTo { x: i32, y: i32 },
    LineTo { x: i32, y: i32 },
    CurveTo { c1x: i32, c1y: i32, c2x: i32, c2y: i32, x: i32, y: i32 },
    Close,
}

/// What a shape is. Rectangles and ovals fill the shape's bounds; a path
/// carries its own geometry and raw markup its own document.
#[derive(Clone, Debug)]
pub enum Kind {
    Rect,
    Circle,
    Path(Vec<Segment>),
    RawMarkup(String),
}

/// A shape as the renderer sees it. `fills[0]` is the topmost fill.
#[derive(Clone, Debug)]
pub struct Shape {
    pub kind: Kind,
    pub selrect: Bounds,
    pub transform: Matrix,
    pub fills: Vec<Fill>,
    pub opacity: u8,
    pub blend_mode: BlendMode,
    pub hidden: bool,
    pub clip_content: bool,
    pub children: Vec<u128>,
}

impl Shape {
    /// The pivot-centred transform is representable.
    pub open spec fn wf(&self) -> bool {
        pivot_fits(self.selrect, self.transform)
    }

    /// Whether the shape can be rendered: see `wf`.
    pub fn is_renderable(&self) -> (r: bool)
        ensures
            r == self.wf(),
    {
        pivot_in_range(self.selrect, self.transform)
    }

    pub fn blend_mode(&self) -> (r: BlendMode)
        ensures
            r == self.blend_mode,
    {
        self.blend_mode
    }

    /// Layer opacity as an alpha from 0 (transparent) to 255 (opaque).
    pub fn opacity(&self) -> (r: u8)
        ensures
            r == self.opacity,
    {
        self.opacity
    }

    pub fn hidden(&self) -> (r: bool)
        ensures
            r == self.hidden,
    {
        self.hidden
    }

    pub fn bounds(&self) -> (r: Bounds)
        ensures
            r == self.selrect,
    {
        self.selrect
    }

    pub fn clip(&self) -> (r: bool)
        ensures
            r == self.clip_content,
    {
        self.clip_content
    }

    pub fn children_ids(&self) -> (r: Vec<u128>)
        ensures
            r@ == self.children@,
    {
        let mut r: Vec<u128> = Vec::new();
        let mut i: usize = 0;
        while i < self.children.len()
            invariant
                i <= self.children@.len(),
                r@ == self.children@.subrange(0, i as int),
            decreases self.children@.len() - i,
        {
            r.push(self.children[i]);
            i += 1;
            assert(r@ =~= self.children@.subrange(0, i as int));
        }
        assert(r@ =~= self.children@);
        r
    }
}

} // verus!
