use vstd::prelude::*;
use crate::geometry::{
    Bounds, BufferLayout, Matrix, buffer_layout, layout_spec, pivot_matrix, pivot_spec,
};
use crate::markup::{RenderError, markup_parses, markup_root_has_child, patch_fill_rule};
use crate::shape::{Fill, Kind, Shape};

verus! {

/// A drawing command for a surface or an offscreen vector buffer.
///
/// `fill` indexes the shape's fill list; painting it needs the shape's bounds.
#[derive(Clone, Copy, Debug, PartialEq, Eq, Structural)]
pub enum DrawOp {
    /// Push the current transform.
    Save,
    /// Pop back to the last pushed transform.
    Restore,
    /// Post-multiply the current transform.
    Concat(Matrix),
    /// Translate the current transform by whole units.
    Translate { dx: i64, dy: i64 },
    FillRect { rect: Bounds, fill: usize },
    FillOval { rect: Bounds, fill: usize },
    /// Fill the shape's path geometry.
    FillPath { fill: usize },
    /// Hand a resolved image fill to the container-fit drawer.
    DrawImage { fill: usize },
    /// Parse the shape's raw markup and draw it.
    DrawMarkup,
    /// Parse the patched buffer document and draw it.
    DrawDocument,
}

/// The fill index a command paints, or -1 for commands that paint no fill.
pub open spec fn fill_index(op: DrawOp) -> int {
    match op {
        DrawOp::FillRect { fill, .. } => fill as int,
        DrawOp::FillOval { fill, .. } => fill as int,
        DrawOp::FillPath { fill } => fill as int,
        DrawOp::DrawImage { fill } => fill as int,
        _ => -1,
    }
}

pub open spec fn paints_fill(op: DrawOp) -> bool {
    fill_index(op) >= 0
}

/// The command for fill `i` of a shape of kind `kind` with bounds `bounds`,
/// given the ids of the images that are decoded and ready; `None` when the
/// fill paints nothing.
pub open spec fn resolve_spec(fill: Fill, i: usize, kind: Kind, bounds: Bounds, ready: Seq<u128>) -> Option<DrawOp> {
    match fill {
        Fill::Image { id, .. } => {
            if ready.contains(id) {
                Some(DrawOp::DrawImage { fill: i })
            } else {
                None
            }
        },
        _ => match kind {
            Kind::Rect => Some(DrawOp::FillRect { rect: bounds, fill: i }),
            Kind::Circle => Some(DrawOp::FillOval { rect: bounds, fill: i }),
            Kind::Path(_) => Some(DrawOp::FillPath { fill: i }),
            Kind::RawMarkup(_) => None,
        },
    }
}

pub open spec fn opt_seq(o: Option<DrawOp>) -> Seq<DrawOp> {
    match o {
        Some(op) => seq![op],
        None => Seq::empty(),
    }
}

/// Commands for the fills at indices `i..`, from the last fill down to fill `i`.
pub open spec fn fill_ops_from(fills: Seq<Fill>, kind: Kind, bounds: Bounds, ready: Seq<u128>, i: int) -> Seq<DrawOp>
    decreases fills.len() - i,
{
    if i < 0 || i >= fills.len() || i > usize::MAX {
        Seq::empty()
    } else {
        fill_ops_from(fills, kind, bounds, ready, i + 1) + opt_seq(
            resolve_spec(fills[i], i as usize, kind, bounds, ready),
        )
    }
}

/// Commands for all fills of a shape, in paint order (last fill first).
pub open spec fn fill_ops_spec(shape: Shape, ready: Seq<u128>) -> Seq<DrawOp> {
    fill_ops_from(shape.fills@, shape.kind, shape.selrect, ready, 0)
}

/// Fill commands are strictly descending in fill index: `fills[0]` is painted last.
pub open spec fn descending(ops: Seq<DrawOp>, lo: int, hi: int) -> bool {
    &&& forall|a: int| 0 <= a < ops.len() ==> lo <= #[trigger] fill_index(ops[a]) < hi
    &&& forall|a: int, b: int|
        0 <= a < b < ops.len() ==> fill_index(#[trigger] ops[a]) > fill_index(#[trigger] ops[b])
}

/// Looks up the command that fill `i` turns into.
pub fn resolve_fill(fill: &Fill, i: usize, kind: &Kind, bounds: Bounds, ready: &Vec<u128>) -> (r: Option<DrawOp>)
    ensures
        r == resolve_spec(*fill, i, *kind, bounds, ready@),
{
    match fill {
        Fill::Image { id, .. } => {
            let mut j: usize = 0;
            while j < ready.len()
                invariant
                    j <= ready@.len(),
                    match *fill {
                        Fill::Image { id: x, .. } => x == *id,
                        _ => false,
                    },
                    forall|k: int| 0 <= k < j ==> ready@[k] != *id,
                decreases ready@.len() - j,
            {
                if ready[j] == *id {
                    assert(ready@[j as int] == *id);
                    assert(ready@.contains(*id));
                    return Some(DrawOp::DrawImage { fill: i });
                }
                j += 1;
            }
            None
        },
        _ => match kind {
            Kind::Rect => Some(DrawOp::FillRect { rect: bounds, fill: i }),
            Kind::Circle => Some(DrawOp::FillOval { rect: bounds, fill: i }),
            Kind::Path(_) => Some(DrawOp::FillPath { fill: i }),
            Kind::RawMarkup(_) => None,
        },
    }
}

pub(crate) proof fn lemma_fill_ops_descending(fills: Seq<Fill>, kind: Kind, bounds: Bounds, ready: Seq<u128>, i: int)
    requires
        0 <= i <= fills.len(),
        fills.len() <= usize::MAX + 1,
    ensures
        descending(fill_ops_from(fills, kind, bounds, ready, i), i, fills.len() as int),
    decreases fills.len() - i,
{
    if i < fills.len() {
        lemma_fill_ops_descending(fills, kind, bounds, ready, i + 1);
        let rest = fill_ops_from(fills, kind, bounds, ready, i + 1);
        let last = opt_seq(resolve_spec(fills[i], i as usize, kind, bounds, ready));
        let all = rest + last;
        assert(forall|a: int| 0 <= a < last.len() ==> fill_index(#[trigger] last[a]) == i);
        assert(forall|a: int| 0 <= a < rest.len() ==> all[a] == rest[a]);
        assert(forall|a: int| rest.len() <= a < all.len() ==> all[a] == last[a - rest.len()]);
    }
}

/// Commands for the shape's fills, from the last fill to the first.
pub fn fill_ops(shape: &Shape, ready: &Vec<u128>) -> (r: Vec<DrawOp>)
    ensures
        r@ == fill_ops_spec(*shape, ready@),
        descending(r@, 0, shape.fills@.len() as int),
{
    let mut ops: Vec<DrawOp> = Vec::new();
    let mut i: usize = shape.fills.len();
    while i > 0
        invariant
            i <= shape.fills@.len(),
            ops@ == fill_ops_from(shape.fills@, shape.kind, shape.selrect, ready@, i as int),
        decreases i,
    {
        i -= 1;
        let op = resolve_fill(&shape.fills[i], i, &shape.kind, shape.selrect, ready);
        match op {
            Some(o) => ops.push(o),
            None => {},
        }
        assert(ops@ =~= fill_ops_from(shape.fills@, shape.kind, shape.selrect, ready@, i as int));
    }
    proof {
        lemma_fill_ops_descending(shape.fills@, shape.kind, shape.selrect, ready@, 0);
    }
    ops
}

/// Change in transform-stack depth that a command makes.
pub open spec fn depth_change(op: DrawOp) -> int {
    match op {
        DrawOp::Save => 1,
        DrawOp::Restore => -1,
        _ => 0,
    }
}

/// Net change in transform-stack depth over a command sequence.
pub open spec fn stack_effect(ops: Seq<DrawOp>) -> int
    decreases ops.len(),
{
    if ops.len() == 0 {
        0
    } else {
        stack_effect(ops.drop_last()) + depth_change(ops.last())
    }
}

/// What a shape's render does, as commands.
///
/// `opening` runs on the surface: it saves the transform, applies the
/// pivot-centred transform and draws what goes there directly. When `buffer`
/// is present, `buffer_ops` runs on an offscreen vector buffer of that layout,
/// whose document then gets its path's fill rule patched and is drawn by
/// `composite_ops`. `closing` restores the surface transform; it also ends a
/// render that fails part-way through `opening`.
pub struct RenderPlan {
    pub opening: Vec<DrawOp>,
    pub buffer: Option<BufferLayout>,
    pub buffer_ops: Vec<DrawOp>,
    pub closing: Vec<DrawOp>,
}

pub open spec fn is_path(kind: Kind) -> bool {
    kind is Path
}

pub open spec fn opening_spec(shape: Shape, ready: Seq<u128>) -> Seq<DrawOp> {
    seq![DrawOp::Save, DrawOp::Concat(pivot_spec(shape.selrect, shape.transform))] + match shape.kind {
        Kind::RawMarkup(_) => seq![DrawOp::DrawMarkup],
        Kind::Path(_) => Seq::empty(),
        _ => fill_ops_spec(shape, ready),
    }
}

/// Only a path with something to paint uses the offscreen buffer.
pub open spec fn buffer_spec(shape: Shape, ready: Seq<u128>) -> Option<BufferLayout> {
    if is_path(shape.kind) && fill_ops_spec(shape, ready).len() > 0 {
        Some(layout_spec(shape.selrect))
    } else {
        None
    }
}

pub open spec fn buffer_ops_spec(shape: Shape, ready: Seq<u128>) -> Seq<DrawOp> {
    match buffer_spec(shape, ready) {
        Some(l) => seq![DrawOp::Translate { dx: l.dx, dy: l.dy }] + fill_ops_spec(shape, ready),
        None => Seq::empty(),
    }
}

pub open spec fn closing_spec() -> Seq<DrawOp> {
    seq![DrawOp::Restore]
}

fn append_ops(dst: &mut Vec<DrawOp>, src: &Vec<DrawOp>)
    ensures
        final(dst)@ == old(dst)@ + src@,
{
    let mut i: usize = 0;
    while i < src.len()
        invariant
            i <= src@.len(),
            dst@ == old(dst)@ + src@.subrange(0, i as int),
        decreases src@.len() - i,
    {
        dst.push(src[i]);
        i += 1;
        assert(dst@ =~= old(dst)@ + src@.subrange(0, i as int));
    }
    assert(src@.subrange(0, src@.len() as int) =~= src@);
}

/// Decides every drawing step of a shape's render.
pub fn plan_render(shape: &Shape, ready: &Vec<u128>) -> (r: RenderPlan)
    requires
        shape.wf(),
    ensures
        r.opening@ == opening_spec(*shape, ready@),
        r.buffer == buffer_spec(*shape, ready@),
        r.buffer_ops@ == buffer_ops_spec(*shape, ready@),
        r.closing@ == closing_spec(),
{
    let m = pivot_matrix(shape.selrect, shape.transform);
    let mut opening: Vec<DrawOp> = vec![DrawOp::Save, DrawOp::Concat(m)];
    let fills = fill_ops(shape, ready);
    let closing: Vec<DrawOp> = vec![DrawOp::Restore];
    match &shape.kind {
        Kind::RawMarkup(_) => {
            opening.push(DrawOp::DrawMarkup);
            assert(opening@ =~= opening_spec(*shape, ready@));
            RenderPlan { opening, buffer: None, buffer_ops: Vec::new(), closing }
        },
        Kind::Path(_) => {
            assert(opening@ =~= opening_spec(*shape, ready@));
            if fills.len() > 0 {
                let layout = buffer_layout(shape.selrect);
                let mut buffer_ops: Vec<DrawOp> = vec![DrawOp::Translate { dx: layout.dx, dy: layout.dy }];
                append_ops(&mut buffer_ops, &fills);
                RenderPlan { opening, buffer: Some(layout), buffer_ops, closing }
            } else {
                let buffer_ops: Vec<DrawOp> = Vec::new();
                assert(buffer_ops@ =~= buffer_ops_spec(*shape, ready@));
                RenderPlan { opening, buffer: None, buffer_ops, closing }
            }
        },
        _ => {
            append_ops(&mut opening, &fills);
            RenderPlan { opening, buffer: None, buffer_ops: Vec::new(), closing }
        },
    }
}

/// Plans a render after checking that the shape's transform is representable.
pub fn try_plan_render(shape: &Shape, ready: &Vec<u128>) -> (r: Result<RenderPlan, RenderError>)
    ensures
        !shape.wf() ==> (r matches Err(e) && e == RenderError::TransformOutOfRange),
        shape.wf() ==> (r matches Ok(p) && p.opening@ == opening_spec(*shape, ready@) && p.buffer
            == buffer_spec(*shape, ready@) && p.buffer_ops@ == buffer_ops_spec(*shape, ready@)
            && p.closing@ == closing_spec()),
{
    if shape.is_renderable() {
        Ok(plan_render(shape, ready))
    } else {
        Err(RenderError::TransformOutOfRange)
    }
}

pub open spec fn composite_spec(l: BufferLayout) -> Seq<DrawOp> {
    seq![
        DrawOp::Save,
        DrawOp::Translate { dx: -l.dx as i64, dy: -l.dy as i64 },
        DrawOp::DrawDocument,
        DrawOp::Restore,
    ]
}

/// Surface commands that draw the patched buffer document back where the
/// shape's local bounds lie, undoing the buffer's translation.
pub fn composite_ops(l: BufferLayout) -> (r: Vec<DrawOp>)
    requires
        l.dx > i64::MIN,
        l.dy > i64::MIN,
    ensures
        r@ == composite_spec(l),
{
    let dx: i64 = -l.dx;
    let dy: i64 = -l.dy;
    vec![DrawOp::Save, DrawOp::Translate { dx, dy }, DrawOp::DrawDocument, DrawOp::Restore]
}

/// The buffer document with its fill rule patched, and the surface commands
/// that draw it.
pub struct PatchedBuffer {
    pub document: String,
    pub ops: Vec<DrawOp>,
}

/// Takes the text serialised from an offscreen buffer of layout `l`, patches
/// its path to the even-odd fill rule and returns what to draw on the surface.
pub fn finish_buffer(l: BufferLayout, svg: &str) -> (r: Result<PatchedBuffer, RenderError>)
    requires
        l.dx > i64::MIN,
        l.dy > i64::MIN,
    ensures
        !markup_parses(svg@) ==> r == Err::<PatchedBuffer, RenderError>(RenderError::MarkupParse),
        markup_parses(svg@) && !markup_root_has_child(svg@, "path"@) ==> r == Err::<
            PatchedBuffer,
            RenderError,
        >(RenderError::MissingPathElement),
        markup_parses(svg@) && markup_root_has_child(svg@, "path"@) ==> r is Ok,
        r matches Ok(p) ==> p.ops@ == composite_spec(l),
{
    match patch_fill_rule(svg) {
        Ok(document) => Ok(PatchedBuffer { document, ops: composite_ops(l) }),
        Err(e) => Err(e),
    }
}

} // verus!
