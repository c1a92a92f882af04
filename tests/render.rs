use shape_render::geometry::{buffer_layout, pivot_matrix, Bounds, BufferLayout, Matrix};
use shape_render::markup::{patch_fill_rule, RenderError};
use shape_render::plan::{composite_ops, fill_ops, finish_buffer, plan_render, resolve_fill, try_plan_render, DrawOp};
use shape_render::shape::{BlendMode, Fill, GradientStop, Kind, Segment, Shape};

fn bounds(left: i32, top: i32, right: i32, bottom: i32) -> Bounds {
    Bounds { left, top, right, bottom }
}

fn solid(color: u32) -> Fill {
    Fill::Solid { color }
}

fn image(id: u128) -> Fill {
    Fill::Image { id, width: 4, height: 3, alpha: 255 }
}

fn overlapping_path() -> Kind {
    Kind::Path(vec![
        Segment::MoveTo { x: 0, y: 0 },
        Segment::LineTo { x: 6, y: 0 },
        Segment::LineTo { x: 6, y: 6 },
        Segment::LineTo { x: 0, y: 6 },
        Segment::Close,
        Segment::MoveTo { x: 3, y: 3 },
        Segment::LineTo { x: 9, y: 3 },
        Segment::LineTo { x: 9, y: 9 },
        Segment::LineTo { x: 3, y: 9 },
        Segment::Close,
    ])
}

fn shape(kind: Kind, selrect: Bounds, fills: Vec<Fill>) -> Shape {
    Shape {
        kind,
        selrect,
        transform: Matrix::identity(),
        fills,
        opacity: 255,
        blend_mode: BlendMode::Normal,
        hidden: false,
        clip_content: false,
        children: vec![],
    }
}

const SVG_DECL: &str = "<?xml version=\"1.0\" encoding=\"utf-8\" ?>";

#[test]
fn pivot_of_identity_is_identity() {
    let m = pivot_matrix(bounds(0, 0, 10, 10), Matrix::identity());
    assert_eq!(m, Matrix::identity());
}

#[test]
fn pivot_scales_around_center() {
    let scale2 = Matrix { scale_x: 131072, skew_x: 0, trans_x: 0, skew_y: 0, scale_y: 131072, trans_y: 0 };
    let m = pivot_matrix(bounds(0, 0, 10, 10), scale2);
    // x -> 2x - 5: the translation counts halves of 1/65536.
    assert_eq!(m.scale_x, 131072);
    assert_eq!(m.trans_x, -655360);
    assert_eq!(m.trans_y, -655360);
}

#[test]
fn pivot_of_odd_width_is_exact() {
    let scale2 = Matrix { scale_x: 131072, skew_x: 0, trans_x: 0, skew_y: 0, scale_y: 65536, trans_y: 0 };
    let m = pivot_matrix(bounds(0, 0, 3, 0), scale2);
    // Centre 1.5: x -> 2x - 1.5, i.e. -1.5 * 2 * 65536.
    assert_eq!(m.trans_x, -196608);
    assert_eq!(m.trans_y, 0);
}

#[test]
fn buffer_layout_of_centered_bounds() {
    let l = buffer_layout(bounds(-5, -5, 5, 5));
    assert_eq!(l, BufferLayout { width: 11, height: 11, dx: 5, dy: 5 });
}

#[test]
fn buffer_layout_of_degenerate_bounds() {
    let l = buffer_layout(bounds(2, 3, 2, 3));
    assert_eq!(l, BufferLayout { width: 1, height: 1, dx: -2, dy: -3 });
}

#[test]
fn fills_paint_last_to_first() {
    let r = bounds(0, 0, 10, 10);
    let s = shape(Kind::Rect, r, vec![solid(1), solid(2), solid(3)]);
    let ops = fill_ops(&s, &vec![]);
    assert_eq!(
        ops,
        vec![
            DrawOp::FillRect { rect: r, fill: 2 },
            DrawOp::FillRect { rect: r, fill: 1 },
            DrawOp::FillRect { rect: r, fill: 0 },
        ]
    );
}

#[test]
fn circle_fills_are_ovals() {
    let r = bounds(0, 0, 4, 8);
    let s = shape(Kind::Circle, r, vec![solid(1)]);
    let plan = plan_render(&s, &vec![]);
    assert_eq!(plan.opening[2], DrawOp::FillOval { rect: r, fill: 0 });
}

#[test]
fn no_fills_paint_nothing_for_every_kind() {
    let r = bounds(0, 0, 10, 10);
    let kinds = vec![Kind::Rect, Kind::Circle, overlapping_path()];
    for kind in kinds {
        let plan = plan_render(&shape(kind, r, vec![]), &vec![]);
        assert_eq!(plan.opening, vec![DrawOp::Save, DrawOp::Concat(Matrix::identity())]);
        assert!(plan.buffer.is_none());
        assert!(plan.buffer_ops.is_empty());
        assert_eq!(plan.closing, vec![DrawOp::Restore]);
    }
    let raw = plan_render(&shape(Kind::RawMarkup("<svg/>".to_string()), r, vec![]), &vec![]);
    assert_eq!(raw.opening, vec![DrawOp::Save, DrawOp::Concat(Matrix::identity()), DrawOp::DrawMarkup]);
}

#[test]
fn path_goes_through_buffer_and_rect_does_not() {
    let r = bounds(0, 0, 9, 9);
    let path = plan_render(&shape(overlapping_path(), r, vec![solid(1)]), &vec![]);
    assert_eq!(path.opening, vec![DrawOp::Save, DrawOp::Concat(Matrix::identity())]);
    assert_eq!(path.buffer, Some(BufferLayout { width: 10, height: 10, dx: 0, dy: 0 }));
    assert_eq!(path.buffer_ops, vec![DrawOp::Translate { dx: 0, dy: 0 }, DrawOp::FillPath { fill: 0 }]);
    let rect = plan_render(&shape(Kind::Rect, r, vec![solid(1)]), &vec![]);
    assert!(rect.buffer.is_none());
    assert!(rect.buffer_ops.is_empty());
    assert_eq!(rect.opening[2], DrawOp::FillRect { rect: r, fill: 0 });
}

#[test]
fn path_buffer_is_translated_into_view() {
    let r = bounds(-5, -5, 5, 5);
    let plan = plan_render(&shape(overlapping_path(), r, vec![solid(1), solid(2)]), &vec![]);
    assert_eq!(plan.buffer, Some(BufferLayout { width: 11, height: 11, dx: 5, dy: 5 }));
    assert_eq!(
        plan.buffer_ops,
        vec![DrawOp::Translate { dx: 5, dy: 5 }, DrawOp::FillPath { fill: 1 }, DrawOp::FillPath { fill: 0 }]
    );
}

#[test]
fn missing_image_is_skipped_without_error() {
    let r = bounds(0, 0, 10, 10);
    let s = shape(Kind::Rect, r, vec![solid(1), image(7), solid(3)]);
    let ops = fill_ops(&s, &vec![9]);
    assert_eq!(ops, vec![DrawOp::FillRect { rect: r, fill: 2 }, DrawOp::FillRect { rect: r, fill: 0 }]);
    let ready = fill_ops(&s, &vec![9, 7]);
    assert_eq!(
        ready,
        vec![
            DrawOp::FillRect { rect: r, fill: 2 },
            DrawOp::DrawImage { fill: 1 },
            DrawOp::FillRect { rect: r, fill: 0 },
        ]
    );
}

#[test]
fn raw_markup_takes_no_fills() {
    let r = bounds(0, 0, 10, 10);
    let kind = Kind::RawMarkup("<svg/>".to_string());
    assert_eq!(resolve_fill(&solid(1), 0, &kind, r, &vec![]), None);
    let s = shape(kind, r, vec![solid(1), image(3)]);
    let plan = plan_render(&s, &vec![3]);
    assert_eq!(plan.opening, vec![DrawOp::Save, DrawOp::Concat(Matrix::identity()), DrawOp::DrawMarkup]);
    assert!(plan.buffer.is_none());
}

#[test]
fn gradient_fill_on_path() {
    let stops = vec![GradientStop { offset: 0, color: 0xff000000 }, GradientStop { offset: 1000, color: 0xffffffff }];
    let g = Fill::Gradient { start_x: 0, start_y: 0, end_x: 10, end_y: 0, stops };
    assert_eq!(resolve_fill(&g, 4, &overlapping_path(), bounds(0, 0, 10, 0), &vec![]), Some(DrawOp::FillPath { fill: 4 }));
}

#[test]
fn patch_sets_even_odd_on_path() {
    let svg = format!("{}<svg xmlns=\"http://www.w3.org/2000/svg\"><path d=\"M0 0L6 0L6 6Z\"/></svg>", SVG_DECL);
    let out = patch_fill_rule(&svg).unwrap();
    assert!(out.contains("fill-rule=\"evenodd\""));
    assert!(out.contains("d=\"M0 0L6 0L6 6Z\""));
    assert!(!svg.contains("evenodd"));
}

#[test]
fn patch_rejects_malformed_markup() {
    let svg = format!("{}<svg><path d=\"M0 0\"", SVG_DECL);
    assert_eq!(patch_fill_rule(&svg), Err(RenderError::MarkupParse));
}

#[test]
fn patch_without_path_is_an_error() {
    let svg = format!("{}<svg><rect width=\"3\"/></svg>", SVG_DECL);
    assert_eq!(patch_fill_rule(&svg), Err(RenderError::MissingPathElement));
}

#[test]
fn composite_undoes_buffer_translation() {
    let l = buffer_layout(bounds(-5, -2, 5, 5));
    assert_eq!(
        composite_ops(l),
        vec![DrawOp::Save, DrawOp::Translate { dx: -5, dy: -2 }, DrawOp::DrawDocument, DrawOp::Restore]
    );
}

#[test]
fn finish_buffer_patches_and_composites() {
    let l = buffer_layout(bounds(1, 2, 5, 5));
    let svg = format!("{}<svg><path d=\"M0 0\"/></svg>", SVG_DECL);
    let done = finish_buffer(l, &svg).unwrap();
    assert!(done.document.contains("evenodd"));
    assert_eq!(done.ops[1], DrawOp::Translate { dx: 1, dy: 2 });
    assert!(finish_buffer(l, "<svg").is_err());
}

#[test]
fn accessors_report_layer_attributes() {
    let r = bounds(0, 0, 1, 1);
    let mut s = shape(Kind::Rect, r, vec![]);
    s.opacity = 128;
    s.blend_mode = BlendMode::Multiply;
    s.hidden = true;
    s.clip_content = true;
    s.children = vec![5, 1, 9];
    assert_eq!(s.opacity(), 128);
    assert_eq!(s.blend_mode(), BlendMode::Multiply);
    assert!(s.hidden());
    assert!(s.clip());
    assert_eq!(s.bounds(), r);
    assert_eq!(s.children_ids(), vec![5, 1, 9]);
}

#[test]
fn renderable_shapes() {
    let r = bounds(0, 0, 10, 10);
    assert!(shape(Kind::Rect, r, vec![]).is_renderable());
    let inverted = bounds(10, 0, 0, 10);
    assert!(shape(Kind::Rect, inverted, vec![]).is_renderable());
    let mut far = shape(Kind::Rect, r, vec![]);
    far.transform.trans_x = i64::MAX;
    far.transform.scale_x = 0;
    assert!(!far.is_renderable());
}

#[test]
fn rect_and_circle_fill_the_shape_bounds() {
    let r = bounds(-3, 1, 7, 4);
    assert_eq!(resolve_fill(&solid(1), 0, &Kind::Rect, r, &vec![]), Some(DrawOp::FillRect { rect: r, fill: 0 }));
    assert_eq!(resolve_fill(&solid(1), 2, &Kind::Circle, r, &vec![]), Some(DrawOp::FillOval { rect: r, fill: 2 }));
    let plan = plan_render(&shape(Kind::Rect, r, vec![solid(5)]), &vec![]);
    assert_eq!(plan.opening[2], DrawOp::FillRect { rect: r, fill: 0 });
    assert!(plan.buffer.is_none());
}

#[test]
fn missing_image_paints_as_if_removed() {
    let r = bounds(0, 0, 10, 10);
    let with_image = fill_ops(&shape(Kind::Circle, r, vec![solid(1), image(7), solid(3), solid(4)]), &vec![]);
    let without = fill_ops(&shape(Kind::Circle, r, vec![solid(1), solid(3), solid(4)]), &vec![]);
    let fills_with: Vec<usize> = with_image
        .iter()
        .map(|op| match op {
            DrawOp::FillOval { fill, .. } => *fill,
            _ => panic!("unexpected command"),
        })
        .collect();
    assert_eq!(fills_with, vec![3, 2, 0]);
    assert_eq!(without.len(), 3);
    assert_eq!(without[0], DrawOp::FillOval { rect: r, fill: 2 });
    assert_eq!(without[2], DrawOp::FillOval { rect: r, fill: 0 });
}

#[test]
fn out_of_range_transform_is_a_typed_error() {
    let r = bounds(0, 0, 10, 10);
    let mut far = shape(Kind::Rect, r, vec![solid(1)]);
    far.transform.trans_x = i64::MAX;
    far.transform.scale_x = 0;
    assert_eq!(try_plan_render(&far, &vec![]).err(), Some(RenderError::TransformOutOfRange));
    let ok = try_plan_render(&shape(Kind::Rect, r, vec![solid(1)]), &vec![]).unwrap();
    assert_eq!(ok.opening[2], DrawOp::FillRect { rect: r, fill: 0 });
}

#[test]
fn overlapping_path_document_is_patched_for_even_odd() {
    let l = buffer_layout(bounds(0, 0, 9, 9));
    let svg = format!(
        "{}<svg xmlns=\"http://www.w3.org/2000/svg\" width=\"10\" height=\"10\"><path fill=\"#FF0000\" d=\"M0 0L6 0L6 6L0 6ZM3 3L9 3L9 9L3 9Z\"/></svg>",
        SVG_DECL
    );
    let done = finish_buffer(l, &svg).unwrap();
    assert!(done.document.contains("fill-rule=\"evenodd\""));
    assert!(done.document.contains("M0 0L6 0L6 6L0 6ZM3 3L9 3L9 9L3 9Z"));
    assert_eq!(done.ops, vec![DrawOp::Save, DrawOp::Translate { dx: 0, dy: 0 }, DrawOp::DrawDocument, DrawOp::Restore]);
}
