use vstd::prelude::*;
use crate::geometry::{Bounds, BufferLayout, layout_spec, pivot_spec};
use crate::plan::{
    DrawOp, buffer_ops_spec, buffer_spec, closing_spec, composite_spec, depth_change, fill_index,
    fill_ops_from, fill_ops_spec, is_path, lemma_fill_ops_descending, opening_spec, opt_seq, paints_fill,
    resolve_spec, stack_effect,
};
use crate::shape::{Fill, Kind, Shape};

verus! {

proof fn lemma_fill_ops_empty(fills: Seq<Fill>, kind: Kind, bounds: Bounds, ready: Seq<u128>, i: int)
    requires
        fills.len() == 0,
    ensures
        fill_ops_from(fills, kind, bounds, ready, i) == Seq::<DrawOp>::empty(),
{
}

/// A shape without fills paints no fill on any target, and uses no buffer;
/// apart from raw markup, its render only saves, transforms and restores.
pub proof fn lemma_no_fills_paint_nothing(shape: Shape, ready: Seq<u128>)
    requires
        shape.fills@.len() == 0,
    ensures
        fill_ops_spec(shape, ready) == Seq::<DrawOp>::empty(),
        buffer_spec(shape, ready) is None,
        buffer_ops_spec(shape, ready) == Seq::<DrawOp>::empty(),
        forall|k: int|
            0 <= k < opening_spec(shape, ready).len() ==> !paints_fill(
                #[trigger] opening_spec(shape, ready)[k],
            ),
        !(shape.kind is RawMarkup) ==> opening_spec(shape, ready) == seq![
            DrawOp::Save,
            DrawOp::Concat(pivot_spec(shape.selrect, shape.transform)),
        ],
{
    lemma_fill_ops_empty(shape.fills@, shape.kind, shape.selrect, ready, 0);
    let o = opening_spec(shape, ready);
    if !(shape.kind is RawMarkup) {
        assert(o =~= seq![DrawOp::Save, DrawOp::Concat(pivot_spec(shape.selrect, shape.transform))]);
    }
}

/// Fills are painted from the last to the first: a fill with a lower index is
/// always painted after, so over, every fill with a higher index.
pub proof fn lemma_later_fills_paint_first(shape: Shape, ready: Seq<u128>, a: int, b: int)
    requires
        0 <= a < b < fill_ops_spec(shape, ready).len(),
        shape.fills@.len() <= usize::MAX,
    ensures
        fill_index(fill_ops_spec(shape, ready)[a]) > fill_index(fill_ops_spec(shape, ready)[b]),
{
    lemma_fill_ops_descending(shape.fills@, shape.kind, shape.selrect, ready, 0);
}

/// Only path shapes go through the offscreen buffer; a path with anything to
/// paint always does, with the buffer laid out over its bounds.
pub proof fn lemma_only_paths_use_buffer(shape: Shape, ready: Seq<u128>)
    ensures
        !is_path(shape.kind) ==> buffer_spec(shape, ready) is None,
        is_path(shape.kind) && fill_ops_spec(shape, ready).len() > 0 ==> buffer_spec(shape, ready)
            == Some(layout_spec(shape.selrect)),
{
}

/// An image fill whose image is not ready paints nothing, and every other
/// fill is painted the same whichever images are ready.
pub proof fn lemma_missing_image_spares_other_fills(
    fills: Seq<Fill>,
    kind: Kind,
    bounds: Bounds,
    ready: Seq<u128>,
    other: Seq<u128>,
    i: usize,
)
    requires
        i < fills.len(),
    ensures
        (fills[i as int] matches Fill::Image { id, .. } && !ready.contains(id)) ==> resolve_spec(
            fills[i as int],
            i,
            kind,
            bounds,
            ready,
        ) is None,
        !(fills[i as int] is Image) ==> resolve_spec(fills[i as int], i, kind, bounds, ready)
            == resolve_spec(fills[i as int], i, kind, bounds, other),
{
}

/// The command with its fill index raised by one when it is at least `i`:
/// how commands renumber when a fill is inserted at index `i`.
pub open spec fn shift_fill(op: DrawOp, i: int) -> DrawOp {
    match op {
        DrawOp::FillRect { rect, fill } => if fill >= i {
            DrawOp::FillRect { rect, fill: (fill + 1) as usize }
        } else {
            op
        },
        DrawOp::FillOval { rect, fill } => if fill >= i {
            DrawOp::FillOval { rect, fill: (fill + 1) as usize }
        } else {
            op
        },
        DrawOp::FillPath { fill } => if fill >= i {
            DrawOp::FillPath { fill: (fill + 1) as usize }
        } else {
            op
        },
        DrawOp::DrawImage { fill } => if fill >= i {
            DrawOp::DrawImage { fill: (fill + 1) as usize }
        } else {
            op
        },
        _ => op,
    }
}

pub open spec fn shift_all(ops: Seq<DrawOp>, i: int) -> Seq<DrawOp> {
    ops.map_values(|op: DrawOp| shift_fill(op, i))
}

proof fn lemma_shift_concat(a: Seq<DrawOp>, b: Seq<DrawOp>, i: int)
    ensures
        shift_all(a + b, i) == shift_all(a, i) + shift_all(b, i),
{
    assert(shift_all(a + b, i) =~= shift_all(a, i) + shift_all(b, i));
}

proof fn lemma_removed_from(
    fills: Seq<Fill>,
    kind: Kind,
    bounds: Bounds,
    ready: Seq<u128>,
    i: int,
    j: int,
)
    requires
        0 <= i < fills.len(),
        fills.len() <= usize::MAX,
        0 <= j <= fills.len(),
        resolve_spec(fills[i], i as usize, kind, bounds, ready) is None,
    ensures
        j > i ==> fill_ops_from(fills, kind, bounds, ready, j) == shift_all(
            fill_ops_from(fills.remove(i), kind, bounds, ready, j - 1),
            i,
        ),
        j <= i ==> fill_ops_from(fills, kind, bounds, ready, j) == shift_all(
            fill_ops_from(fills.remove(i), kind, bounds, ready, j),
            i,
        ),
    decreases fills.len() - j,
{
    let f2 = fills.remove(i);
    if j == fills.len() {
        assert(shift_all(fill_ops_from(f2, kind, bounds, ready, j - 1), i) =~= Seq::<DrawOp>::empty());
    } else {
        lemma_removed_from(fills, kind, bounds, ready, i, j + 1);
        let mine = opt_seq(resolve_spec(fills[j], j as usize, kind, bounds, ready));
        if j > i {
            assert(f2[j - 1] == fills[j]);
            let theirs = opt_seq(resolve_spec(f2[j - 1], (j - 1) as usize, kind, bounds, ready));
            lemma_shift_concat(fill_ops_from(f2, kind, bounds, ready, j), theirs, i);
            assert(shift_all(theirs, i) =~= mine);
        } else if j == i {
            assert(mine =~= Seq::<DrawOp>::empty());
            assert(fill_ops_from(fills, kind, bounds, ready, j) =~= fill_ops_from(fills, kind, bounds, ready, j + 1));
        } else {
            assert(f2[j] == fills[j]);
            let theirs = opt_seq(resolve_spec(f2[j], j as usize, kind, bounds, ready));
            lemma_shift_concat(fill_ops_from(f2, kind, bounds, ready, j + 1), theirs, i);
            assert(shift_all(theirs, i) =~= mine);
        }
    }
}

/// An image fill whose image is not ready changes nothing else: the shape
/// paints exactly what it would paint without that fill, in the same order,
/// with the fills after it keeping their own indices.
pub proof fn lemma_missing_image_as_if_removed(
    fills: Seq<Fill>,
    kind: Kind,
    bounds: Bounds,
    ready: Seq<u128>,
    i: int,
)
    requires
        0 <= i < fills.len(),
        fills.len() <= usize::MAX,
        fills[i] matches Fill::Image { id, .. } && !ready.contains(id),
    ensures
        fill_ops_from(fills, kind, bounds, ready, 0) == shift_all(
            fill_ops_from(fills.remove(i), kind, bounds, ready, 0),
            i,
        ),
{
    lemma_removed_from(fills, kind, bounds, ready, i, 0);
}

proof fn lemma_effect_after_save(s: Seq<DrawOp>)
    requires
        s.len() >= 1,
        s[0] == DrawOp::Save,
        forall|k: int| 1 <= k < s.len() ==> depth_change(#[trigger] s[k]) == 0,
    ensures
        stack_effect(s) == 1,
    decreases s.len(),
{
    if s.len() > 1 {
        let t = s.drop_last();
        assert(forall|k: int| 1 <= k < t.len() ==> t[k] == s[k]);
        lemma_effect_after_save(t);
        assert(depth_change(s[s.len() - 1]) == 0);
    } else {
        assert(s.drop_last().len() == 0);
        assert(stack_effect(s.drop_last()) == 0);
    }
}

/// Wherever a render stops after its first surface command (a markup that
/// fails to parse included), running the closing commands returns the
/// surface's transform stack to its depth before the call; drawing the
/// patched buffer back leaves the depth unchanged.
pub proof fn lemma_closing_restores_transform(shape: Shape, ready: Seq<u128>, k: int)
    requires
        1 <= k <= opening_spec(shape, ready).len(),
        shape.fills@.len() <= usize::MAX,
    ensures
        stack_effect(opening_spec(shape, ready).take(k)) + stack_effect(closing_spec()) == 0,
        forall|l: BufferLayout| stack_effect(#[trigger] composite_spec(l)) == 0,
{
    let o = opening_spec(shape, ready);
    let f = fill_ops_spec(shape, ready);
    lemma_fill_ops_descending(shape.fills@, shape.kind, shape.selrect, ready, 0);
    assert(forall|j: int| 0 <= j < f.len() ==> 0 <= #[trigger] fill_index(f[j]));
    assert(forall|j: int| 2 <= j < o.len() ==> depth_change(#[trigger] o[j]) == 0) by {
        assert forall|j: int| 2 <= j < o.len() implies depth_change(#[trigger] o[j]) == 0 by {
            match shape.kind {
                Kind::RawMarkup(_) => {},
                Kind::Path(_) => {},
                _ => {
                    assert(o[j] == f[j - 2]);
                    assert(0 <= fill_index(f[j - 2]));
                },
            }
        }
    }
    let p = o.take(k);
    assert(forall|j: int| 1 <= j < p.len() ==> p[j] == o[j]);
    lemma_effect_after_save(p);
    let c = closing_spec();
    assert(c.drop_last() =~= Seq::<DrawOp>::empty());
    assert(stack_effect(c.drop_last()) == 0);
    assert forall|l: BufferLayout| stack_effect(#[trigger] composite_spec(l)) == 0 by {
        let s = composite_spec(l);
        let s3 = s.drop_last();
        let s2 = s3.drop_last();
        let s1 = s2.drop_last();
        assert(s1 =~= seq![DrawOp::Save]);
        assert(s1.drop_last() =~= Seq::<DrawOp>::empty());
        assert(stack_effect(s1.drop_last()) == 0);
        assert(stack_effect(s1) == 1);
        assert(stack_effect(s2) == 1);
        assert(stack_effect(s3) == 1);
    }
}

} // verus!
