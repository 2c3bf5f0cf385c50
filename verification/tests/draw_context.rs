use iui::draw::context::{DrawContext, NativeCall};
use iui::draw::descriptor::{Brush, Color, LineCap, LineJoin, NativeBrush, StrokeParams, FIXED_ONE};
use iui::draw::resource::{DrawError, HandleKind, Image, Path, Transform, UI};

#[test]
fn new_context_wraps_nonnull_handle() {
    let c = DrawContext::from_ui_draw_context(7).unwrap();
    assert_eq!(c.surface, 7);
    assert!(c.in_callback);
    assert_eq!(c.depth, 0);
    assert!(c.calls.is_empty());
}

#[test]
fn null_context_handle_is_rejected() {
    assert_eq!(DrawContext::from_ui_draw_context(0).unwrap_err(), DrawError::InvalidHandle);
}

#[test]
fn fill_forwards_one_call_with_resolved_brush() {
    let mut c = DrawContext::from_ui_draw_context(7).unwrap();
    let ui = UI { initialized: true };
    let path = Path { raw: 3, kind: HandleKind::Path };
    let color = Color { r: 10, g: 20, b: 30, a: 255 };
    let brush = Brush::Solid { color };
    assert_eq!(c.fill(&ui, &path, &brush), Ok(()));
    assert_eq!(c.calls, vec![NativeCall::Fill { path: 3, brush: NativeBrush::Solid { color } }]);
}

#[test]
fn stroke_forwards_one_call_with_params_preserved() {
    let mut c = DrawContext::from_ui_draw_context(7).unwrap();
    let ui = UI { initialized: true };
    let path = Path { raw: 11, kind: HandleKind::Path };
    let color = Color { r: 1, g: 2, b: 3, a: 4 };
    let brush = Brush::Solid { color };
    let params = StrokeParams {
        cap: LineCap::Round,
        join: LineJoin::Bevel,
        thickness: FIXED_ONE / 2,
        miter_limit: 10 * FIXED_ONE,
        dash: vec![FIXED_ONE, FIXED_ONE / 4],
        dash_phase: FIXED_ONE / 8,
    };
    assert_eq!(c.stroke(&ui, &path, &brush, &params), Ok(()));
    assert_eq!(c.calls.len(), 1);
    match &c.calls[0] {
        NativeCall::Stroke { path: p, brush: b, params: n } => {
            assert_eq!(*p, 11);
            assert_eq!(*b, NativeBrush::Solid { color });
            assert_eq!(n.cap, LineCap::Round);
            assert_eq!(n.join, LineJoin::Bevel);
            assert_eq!(n.thickness, FIXED_ONE / 2);
            assert_eq!(n.miter_limit, 10 * FIXED_ONE);
            assert_eq!(n.dash, vec![FIXED_ONE, FIXED_ONE / 4]);
            assert_eq!(n.dash_phase, FIXED_ONE / 8);
        }
        other => panic!("expected a stroke call, found {:?}", other),
    }
}

#[test]
fn transform_forwards_matrix_handle_unchanged() {
    let mut c = DrawContext::from_ui_draw_context(7).unwrap();
    let ui = UI { initialized: true };
    let m = Transform { raw: 42, kind: HandleKind::Transform };
    assert_eq!(c.transform(&ui, &m), Ok(()));
    assert_eq!(c.calls, vec![NativeCall::Transform { matrix: 42 }]);
}

#[test]
fn scale_forwards_both_ratios() {
    let mut c = DrawContext::from_ui_draw_context(7).unwrap();
    assert_eq!(c.scale(2 * FIXED_ONE, FIXED_ONE / 2), Ok(()));
    assert_eq!(c.calls, vec![NativeCall::Scale { x_scale: 2 * FIXED_ONE, y_scale: FIXED_ONE / 2 }]);
}

#[test]
fn save_then_restore_keeps_depth() {
    let mut c = DrawContext::from_ui_draw_context(7).unwrap();
    let ui = UI { initialized: true };
    let before = c.depth;
    assert_eq!(c.save(&ui), Ok(()));
    assert_eq!(c.depth, before + 1);
    assert_eq!(c.restore(&ui), Ok(()));
    assert_eq!(c.depth, before);
    assert_eq!(c.calls, vec![NativeCall::Save, NativeCall::Restore]);
}

#[test]
fn nested_save_restore_pairs_balance() {
    let mut c = DrawContext::from_ui_draw_context(7).unwrap();
    let ui = UI { initialized: true };
    c.save(&ui).unwrap();
    c.save(&ui).unwrap();
    c.scale(2 * FIXED_ONE, 2 * FIXED_ONE).unwrap();
    c.restore(&ui).unwrap();
    c.restore(&ui).unwrap();
    assert_eq!(c.depth, 0);
    let leaked = c.end_callback();
    assert_eq!(leaked, 0);
}

#[test]
fn unmatched_save_is_reported_at_callback_end() {
    let mut c = DrawContext::from_ui_draw_context(7).unwrap();
    let ui = UI { initialized: true };
    c.save(&ui).unwrap();
    c.save(&ui).unwrap();
    c.restore(&ui).unwrap();
    let leaked = c.end_callback();
    assert_eq!(leaked, 1);
    assert!(!c.in_callback);
}

#[test]
fn identity_scale_keeps_pixmap_scale() {
    let mut c = DrawContext::from_ui_draw_context(9).unwrap();
    c.scale(2 * FIXED_ONE, 3 * FIXED_ONE).unwrap();
    let (mut nx, mut ny, mut den): (i128, i128, i128) = (1, 1, 1);
    for call in &c.calls {
        if let NativeCall::Scale { x_scale, y_scale } = call {
            nx *= *x_scale as i128;
            ny *= *y_scale as i128;
            den *= FIXED_ONE as i128;
        }
    }
    c.scale(FIXED_ONE, FIXED_ONE).unwrap();
    let (mut nx2, mut ny2, mut den2): (i128, i128, i128) = (1, 1, 1);
    for call in &c.calls {
        if let NativeCall::Scale { x_scale, y_scale } = call {
            nx2 *= *x_scale as i128;
            ny2 *= *y_scale as i128;
            den2 *= FIXED_ONE as i128;
        }
    }
    assert_eq!(nx * den2, nx2 * den);
    assert_eq!(ny * den2, ny2 * den);
}

#[test]
fn draw_image_at_origin_records_zero_offset() {
    let mut c = DrawContext::from_ui_draw_context(7).unwrap();
    let img = Image { raw: 5, kind: HandleKind::Image };
    assert_eq!(c.draw_image(0, 0, &img), Ok(()));
    assert_eq!(c.calls, vec![NativeCall::DrawImage { x: 0, y: 0, image: 5 }]);
}

#[test]
fn draw_image_forwards_offset_unchanged() {
    let mut c = DrawContext::from_ui_draw_context(7).unwrap();
    let img = Image { raw: 5, kind: HandleKind::Image };
    assert_eq!(c.draw_image(3 * FIXED_ONE, -2 * FIXED_ONE, &img), Ok(()));
    assert_eq!(
        c.calls,
        vec![NativeCall::DrawImage { x: 3 * FIXED_ONE, y: -2 * FIXED_ONE, image: 5 }]
    );
}

#[test]
fn null_path_handle_is_invalid_and_forwards_nothing() {
    let mut c = DrawContext::from_ui_draw_context(7).unwrap();
    let ui = UI { initialized: true };
    let path = Path { raw: 0, kind: HandleKind::Path };
    let brush = Brush::Solid { color: Color { r: 0, g: 0, b: 0, a: 255 } };
    assert_eq!(c.fill(&ui, &path, &brush), Err(DrawError::InvalidHandle));
    assert!(c.calls.is_empty());
}

#[test]
fn wrong_handle_kind_is_type_mismatch() {
    let mut c = DrawContext::from_ui_draw_context(7).unwrap();
    let ui = UI { initialized: true };
    let path = Path { raw: 3, kind: HandleKind::Image };
    let brush = Brush::Solid { color: Color { r: 0, g: 0, b: 0, a: 255 } };
    assert_eq!(c.fill(&ui, &path, &brush), Err(DrawError::TypeMismatch));
    let m = Transform { raw: 8, kind: HandleKind::Path };
    assert_eq!(c.transform(&ui, &m), Err(DrawError::TypeMismatch));
    let img = Image { raw: 5, kind: HandleKind::Transform };
    assert_eq!(c.draw_image(0, 0, &img), Err(DrawError::TypeMismatch));
    assert!(c.calls.is_empty());
}

#[test]
fn operation_after_callback_end_is_out_of_context() {
    let mut c = DrawContext::from_ui_draw_context(7).unwrap();
    let ui = UI { initialized: true };
    c.end_callback();
    let path = Path { raw: 3, kind: HandleKind::Path };
    let brush = Brush::Solid { color: Color { r: 9, g: 9, b: 9, a: 9 } };
    assert_eq!(c.fill(&ui, &path, &brush), Err(DrawError::OutOfContext));
    assert_eq!(c.scale(FIXED_ONE, FIXED_ONE), Err(DrawError::OutOfContext));
    assert_eq!(c.save(&ui), Err(DrawError::OutOfContext));
    assert!(c.calls.is_empty());
}

#[test]
fn uninitialized_toolkit_is_out_of_context() {
    let mut c = DrawContext::from_ui_draw_context(7).unwrap();
    let ui = UI { initialized: false };
    let path = Path { raw: 3, kind: HandleKind::Path };
    let brush = Brush::Solid { color: Color { r: 9, g: 9, b: 9, a: 9 } };
    assert_eq!(c.stroke(
        &ui,
        &path,
        &brush,
        &StrokeParams {
            cap: LineCap::Flat,
            join: LineJoin::Miter,
            thickness: FIXED_ONE,
            miter_limit: 10 * FIXED_ONE,
            dash: vec![],
            dash_phase: 0,
        },
    ), Err(DrawError::OutOfContext));
    assert!(c.calls.is_empty());
}

#[test]
fn out_of_context_takes_precedence_over_bad_handle() {
    let mut c = DrawContext::from_ui_draw_context(7).unwrap();
    let ui = UI { initialized: true };
    c.end_callback();
    let path = Path { raw: 0, kind: HandleKind::Image };
    let brush = Brush::Solid { color: Color { r: 1, g: 1, b: 1, a: 1 } };
    assert_eq!(c.fill(&ui, &path, &brush), Err(DrawError::OutOfContext));
}
