//! The drawing context: a non-owning wrapper around a native drawing
//! surface, valid for one paint callback, that validates its arguments and
//! then forwards each operation as exactly one native call.
//!
//! The native surface itself is owned by the toolkit; what this layer is
//! responsible for is which calls it forwards and with which arguments.  The
//! context therefore records the forwarded calls in order, and the contracts
//! below pin, for every operation, exactly when it forwards, what it
//! forwards, and what it reports instead when the arguments or the validity
//! window are not fit for use.

use vstd::prelude::*;

use crate::draw::descriptor::{
    Brush, FIXED_ONE, NativeBrush, NativeStrokeParams, StrokeParams, resolve_brush_spec,
    stroke_params_resolved,
};
use crate::draw::resource::{DrawError, HandleKind, Image, Path, Transform, UI, handle_check};

verus! {

/// One call forwarded to the native drawing layer, with the arguments it
/// was given.
#[derive(Clone, Debug, PartialEq, Eq)]
pub enum NativeCall {
    /// A stroke along a path with a resolved brush and resolved stroke
    /// parameters.
    Stroke { path: u64, brush: NativeBrush, params: NativeStrokeParams },
    /// A fill of a path with a resolved brush.
    Fill { path: u64, brush: NativeBrush },
    /// A concatenation of the given matrix handle onto the context's
    /// current transform.
    Transform { matrix: u64 },
    /// A scale of the surface's backing pixmap by the given 16.16
    /// fixed-point ratios.
    Scale { x_scale: i64, y_scale: i64 },
    /// A push of the surface's state stack (clip, transform, ...).
    Save,
    /// A pop of the surface's state stack.
    Restore,
    /// A blit of the image with the given handle at the given 16.16
    /// fixed-point surface offset.
    DrawImage { x: i64, y: i64, image: u64 },
}

/// The net effect of a sequence of forwarded calls on the native state
/// stack's depth: saves push one frame, restores pop one, nothing else
/// touches the stack.
pub open spec fn depth_delta(log: Seq<NativeCall>) -> int
    decreases log.len(),
{
    if log.len() == 0 {
        0
    } else {
        depth_delta(log.drop_last()) + match log.last() {
            NativeCall::Save => 1int,
            NativeCall::Restore => -1int,
            _ => 0int,
        }
    }
}

/// The product of the x ratios of every pixmap scale among the forwarded
/// calls; together with `pow_fixed_one` over `scale_call_count` it gives the
/// pixmap's accumulated x scale as an exact rational.
pub open spec fn scale_product_x(log: Seq<NativeCall>) -> int
    decreases log.len(),
{
    if log.len() == 0 {
        1
    } else {
        scale_product_x(log.drop_last()) * match log.last() {
            NativeCall::Scale { x_scale, .. } => x_scale as int,
            _ => 1int,
        }
    }
}

/// The product of the y ratios of every pixmap scale among the forwarded
/// calls.
pub open spec fn scale_product_y(log: Seq<NativeCall>) -> int
    decreases log.len(),
{
    if log.len() == 0 {
        1
    } else {
        scale_product_y(log.drop_last()) * match log.last() {
            NativeCall::Scale { y_scale, .. } => y_scale as int,
            _ => 1int,
        }
    }
}

/// How many pixmap scales the forwarded calls contain.
pub open spec fn scale_call_count(log: Seq<NativeCall>) -> nat
    decreases log.len(),
{
    if log.len() == 0 {
        0
    } else {
        scale_call_count(log.drop_last()) + match log.last() {
            NativeCall::Scale { .. } => 1nat,
            _ => 0nat,
        }
    }
}

/// `FIXED_ONE` raised to the `n`th power: the denominator of the pixmap's
/// accumulated scale after `n` scale calls.
pub open spec fn pow_fixed_one(n: nat) -> int
    decreases n,
{
    if n == 0 {
        1
    } else {
        (FIXED_ONE as int) * pow_fixed_one((n - 1) as nat)
    }
}

/// Where the native blit of an image at fixed-point surface offset `(x, y)`
/// places the image pixel at column `px`, row `py`: the blit copies pixels
/// one for one, so the pixel lands `px` columns and `py` rows past the
/// offset, with no scaling applied.
pub open spec fn blit_dest(x: i64, y: i64, px: nat, py: nat) -> (int, int) {
    (x + px * (FIXED_ONE as int), y + py * (FIXED_ONE as int))
}

/// The outcome an operation reports: out of context when the validity
/// window is closed, the handle check's verdict otherwise, and success when
/// both pass.  Only a successful outcome forwards a native call.
pub open spec fn op_result(gate_ok: bool, check: Option<DrawError>) -> Result<(), DrawError> {
    if !gate_ok {
        Err(DrawError::OutOfContext)
    } else {
        match check {
            Some(e) => Err(e),
            None => Ok(()),
        }
    }
}

/// Drawing context, used to draw custom content on the screen.
///
/// It borrows a native drawing-surface handle for the duration of one paint
/// callback and owns nothing: `surface` is the toolkit's, and the wrapper
/// must not be used once the callback has ended.  `calls` records, in
/// order, every call forwarded to the native layer, and `depth` mirrors the
/// native state stack's depth, which only `save` and `restore` move.
#[derive(Debug)]
pub struct DrawContext {
    pub surface: u64,
    pub in_callback: bool,
    pub depth: usize,
    pub calls: Vec<NativeCall>,
}

impl DrawContext {
    /// Well-formedness: the surface handle was validated at construction,
    /// and the mirrored depth agrees with the forwarded calls' net effect
    /// on the native state stack.
    pub open spec fn wf(self) -> bool {
        &&& self.surface != 0
        &&& self.depth as int == depth_delta(self.calls@)
    }

    /// Whether an operation taking the toolkit token `ctx` may forward: the
    /// paint callback's validity window is open and the toolkit is
    /// initialized.
    pub open spec fn gate(self, ctx: UI) -> bool {
        self.in_callback && ctx.initialized
    }

    /// Create a Context from a raw drawing-surface handle, inside the paint
    /// callback that the toolkit handed the handle to.  A null handle is
    /// rejected instead of being wrapped.
    pub fn from_ui_draw_context(raw: u64) -> (r: Result<DrawContext, DrawError>)
        ensures
            raw == 0 ==> r == Err::<DrawContext, DrawError>(DrawError::InvalidHandle),
            raw != 0 ==> (r matches Ok(c) && c.wf() && c.surface == raw && c.in_callback
                && c.depth == 0 && c.calls@ == Seq::<NativeCall>::empty()),
    {
        if raw == 0 {
            Err(DrawError::InvalidHandle)
        } else {
            Ok(DrawContext { surface: raw, in_callback: true, depth: 0, calls: Vec::new() })
        }
    }

    /// Draw a fill on this DrawContext using the given Path using the given
    /// Brush.  When the validity window is open and the path handle is fit
    /// for use, exactly one native fill call is forwarded, with the path's
    /// handle and the brush resolved with every field preserved; otherwise
    /// nothing is forwarded and the reason is reported.
    pub fn fill(&mut self, ctx: &UI, path: &Path, brush: &Brush) -> (r: Result<(), DrawError>)
        requires
            old(self).wf(),
        ensures
            final(self).wf(),
            final(self).surface == old(self).surface,
            final(self).in_callback == old(self).in_callback,
            final(self).depth == old(self).depth,
            r == op_result(
                old(self).gate(*ctx),
                handle_check(path.raw, path.kind, HandleKind::Path),
            ),
            r is Ok ==> final(self).calls@ == old(self).calls@.push(
                NativeCall::Fill { path: path.raw, brush: resolve_brush_spec(*brush) },
            ),
            !(r is Ok) ==> final(self).calls@ == old(self).calls@,
    {
        if !(self.in_callback && ctx.initialized) {
            return Err(DrawError::OutOfContext);
        }
        if path.raw == 0 {
            return Err(DrawError::InvalidHandle);
        }
        if path.kind != HandleKind::Path {
            return Err(DrawError::TypeMismatch);
        }
        let native_brush = brush.resolve();
        self.calls.push(NativeCall::Fill { path: path.raw, brush: native_brush });
        proof {
            assert(self.calls@.drop_last() =~= old(self).calls@);
        }
        Ok(())
    }

    /// Draw a stroke on this DrawContext which runs along the given Path,
    /// with the given Brush and StrokeParams.  When the validity window is
    /// open and the path handle is fit for use, exactly one native stroke
    /// call is forwarded, with the brush and the stroke parameters resolved
    /// with every field (cap, join, thickness, miter limit, dash pattern,
    /// dash phase) preserved unchanged; otherwise nothing is forwarded and
    /// the reason is reported.
    pub fn stroke(&mut self, ctx: &UI, path: &Path, brush: &Brush, stroke_params: &StrokeParams)
        -> (r: Result<(), DrawError>)
        requires
            old(self).wf(),
        ensures
            final(self).wf(),
            final(self).surface == old(self).surface,
            final(self).in_callback == old(self).in_callback,
            final(self).depth == old(self).depth,
            r == op_result(
                old(self).gate(*ctx),
                handle_check(path.raw, path.kind, HandleKind::Path),
            ),
            r is Ok ==> ({
                &&& final(self).calls@.len() == old(self).calls@.len() + 1
                &&& final(self).calls@.drop_last() == old(self).calls@
                &&& (final(self).calls@.last() matches NativeCall::Stroke { path: p, brush: b, params: n }
                    && p == path.raw && b == resolve_brush_spec(*brush)
                    && stroke_params_resolved(*stroke_params, n))
            }),
            !(r is Ok) ==> final(self).calls@ == old(self).calls@,
    {
        if !(self.in_callback && ctx.initialized) {
            return Err(DrawError::OutOfContext);
        }
        if path.raw == 0 {
            return Err(DrawError::InvalidHandle);
        }
        if path.kind != HandleKind::Path {
            return Err(DrawError::TypeMismatch);
        }
        let native_brush = brush.resolve();
        let native_params = stroke_params.resolve();
        self.calls.push(
            NativeCall::Stroke { path: path.raw, brush: native_brush, params: native_params },
        );
        proof {
            assert(self.calls@.drop_last() =~= old(self).calls@);
        }
        Ok(())
    }

    /// Transform this DrawContext by the given Transform.  When the
    /// validity window is open and the matrix handle is fit for use,
    /// exactly one native matrix-concatenation call is forwarded with the
    /// handle as-is; otherwise nothing is forwarded and the reason is
    /// reported.
    pub fn transform(&mut self, ctx: &UI, txform: &Transform) -> (r: Result<(), DrawError>)
        requires
            old(self).wf(),
        ensures
            final(self).wf(),
            final(self).surface == old(self).surface,
            final(self).in_callback == old(self).in_callback,
            final(self).depth == old(self).depth,
            r == op_result(
                old(self).gate(*ctx),
                handle_check(txform.raw, txform.kind, HandleKind::Transform),
            ),
            r is Ok ==> final(self).calls@ == old(self).calls@.push(
                NativeCall::Transform { matrix: txform.raw },
            ),
            !(r is Ok) ==> final(self).calls@ == old(self).calls@,
    {
        if !(self.in_callback && ctx.initialized) {
            return Err(DrawError::OutOfContext);
        }
        if txform.raw == 0 {
            return Err(DrawError::InvalidHandle);
        }
        if txform.kind != HandleKind::Transform {
            return Err(DrawError::TypeMismatch);
        }
        self.calls.push(NativeCall::Transform { matrix: txform.raw });
        proof {
            assert(self.calls@.drop_last() =~= old(self).calls@);
        }
        Ok(())
    }

    /// Scale the contents of the DrawContext by the given X and Y ratios,
    /// in 16.16 fixed point.  This operates on the surface's backing pixmap
    /// rather than the path/brush pipeline.  The call is forwarded exactly
    /// once whenever the validity window is open, identity ratios included:
    /// that an identity scale leaves the pixmap unchanged is the native
    /// layer's semantics, stated by `lemma_identity_scale_is_pixmap_noop`.
    pub fn scale(&mut self, x_scale: i64, y_scale: i64) -> (r: Result<(), DrawError>)
        requires
            old(self).wf(),
        ensures
            final(self).wf(),
            final(self).surface == old(self).surface,
            final(self).in_callback == old(self).in_callback,
            final(self).depth == old(self).depth,
            r == op_result(old(self).in_callback, None::<DrawError>),
            r is Ok ==> final(self).calls@ == old(self).calls@.push(
                NativeCall::Scale { x_scale, y_scale },
            ),
            !(r is Ok) ==> final(self).calls@ == old(self).calls@,
    {
        if !self.in_callback {
            return Err(DrawError::OutOfContext);
        }
        self.calls.push(NativeCall::Scale { x_scale, y_scale });
        proof {
            assert(self.calls@.drop_last() =~= old(self).calls@);
        }
        Ok(())
    }

    /// Push the native drawing context's state stack (clip, transform,
    /// ...), entering a scoped drawing-state frame.  When the validity
    /// window is open, exactly one native save call is forwarded and the
    /// state stack grows by one frame; every save must be matched by a
    /// restore before the callback ends, or `end_callback` reports the
    /// leak.
    pub fn save(&mut self, ctx: &UI) -> (r: Result<(), DrawError>)
        requires
            old(self).wf(),
        ensures
            final(self).wf(),
            final(self).surface == old(self).surface,
            final(self).in_callback == old(self).in_callback,
            r == op_result(old(self).gate(*ctx), None::<DrawError>),
            r is Ok ==> final(self).calls@ == old(self).calls@.push(NativeCall::Save)
                && final(self).depth == old(self).depth + 1,
            !(r is Ok) ==> final(self).calls@ == old(self).calls@
                && final(self).depth == old(self).depth,
    {
        if !(self.in_callback && ctx.initialized) {
            return Err(DrawError::OutOfContext);
        }
        self.calls.push(NativeCall::Save);
        // The call count bounds the mirrored depth, so `depth + 1` fits in a
        // usize whenever the push above succeeded.
        let n = self.calls.len();
        proof {
            assert(self.calls@.drop_last() =~= old(self).calls@);
            lemma_depth_delta_bounds(self.calls@);
            assert(self.depth as int + 1 == depth_delta(self.calls@));
            assert(self.depth as int + 1 <= n as int);
        }
        self.depth = self.depth + 1;
        Ok(())
    }

    /// Pop the native drawing context's state stack, leaving the scoped
    /// drawing-state frame the matching save entered.  A restore with no
    /// frame to pop would be handed to the native layer as incorrect
    /// nesting, so a positive depth is required.  When the validity window
    /// is open, exactly one native restore call is forwarded and the state
    /// stack shrinks by one frame.
    pub fn restore(&mut self, ctx: &UI) -> (r: Result<(), DrawError>)
        requires
            old(self).wf(),
            old(self).depth > 0,
        ensures
            final(self).wf(),
            final(self).surface == old(self).surface,
            final(self).in_callback == old(self).in_callback,
            r == op_result(old(self).gate(*ctx), None::<DrawError>),
            r is Ok ==> final(self).calls@ == old(self).calls@.push(NativeCall::Restore)
                && final(self).depth == old(self).depth - 1,
            !(r is Ok) ==> final(self).calls@ == old(self).calls@
                && final(self).depth == old(self).depth,
    {
        if !(self.in_callback && ctx.initialized) {
            return Err(DrawError::OutOfContext);
        }
        self.calls.push(NativeCall::Restore);
        proof {
            assert(self.calls@.drop_last() =~= old(self).calls@);
        }
        self.depth = self.depth - 1;
        Ok(())
    }

    /// Draw the pixels from the given Image onto this DrawContext at the
    /// given position, in 16.16 fixed point.  When the validity window is
    /// open and the image handle is fit for use, exactly one native blit
    /// call is forwarded with the offset and handle unchanged; where the
    /// blit places each image pixel is `blit_dest`, and
    /// `lemma_draw_image_at_origin` states that a blit at the origin puts
    /// the image's top-left pixel at the surface origin.
    pub fn draw_image(&mut self, x: i64, y: i64, img: &Image) -> (r: Result<(), DrawError>)
        requires
            old(self).wf(),
        ensures
            final(self).wf(),
            final(self).surface == old(self).surface,
            final(self).in_callback == old(self).in_callback,
            final(self).depth == old(self).depth,
            r == op_result(
                old(self).in_callback,
                handle_check(img.raw, img.kind, HandleKind::Image),
            ),
            r is Ok ==> final(self).calls@ == old(self).calls@.push(
                NativeCall::DrawImage { x, y, image: img.raw },
            ),
            !(r is Ok) ==> final(self).calls@ == old(self).calls@,
    {
        if !self.in_callback {
            return Err(DrawError::OutOfContext);
        }
        if img.raw == 0 {
            return Err(DrawError::InvalidHandle);
        }
        if img.kind != HandleKind::Image {
            return Err(DrawError::TypeMismatch);
        }
        self.calls.push(NativeCall::DrawImage { x, y, image: img.raw });
        proof {
            assert(self.calls@.drop_last() =~= old(self).calls@);
        }
        Ok(())
    }

    /// Close the paint callback's validity window.  Every later operation
    /// reports `OutOfContext`.  The number of unmatched saves still on the
    /// native state stack is returned: a positive count is a leak of state
    /// frames across paint callbacks, detectable by the caller.
    pub fn end_callback(&mut self) -> (leaked: usize)
        requires
            old(self).wf(),
        ensures
            final(self).wf(),
            !final(self).in_callback,
            final(self).surface == old(self).surface,
            final(self).depth == old(self).depth,
            final(self).calls@ == old(self).calls@,
            leaked == old(self).depth,
            leaked as int == depth_delta(old(self).calls@),
    {
        self.in_callback = false;
        self.depth
    }
}

/// The state-stack effect of forwarded calls never exceeds their number in
/// either direction.
pub proof fn lemma_depth_delta_bounds(log: Seq<NativeCall>)
    ensures
        -(log.len() as int) <= depth_delta(log) <= log.len() as int,
    decreases log.len(),
{
    if log.len() > 0 {
        lemma_depth_delta_bounds(log.drop_last());
    }
}

/// A save followed immediately by a restore leaves the native state stack's
/// depth exactly as it was, whatever calls were forwarded before.
pub proof fn lemma_save_restore_depth(log: Seq<NativeCall>)
    ensures
        depth_delta(log.push(NativeCall::Save).push(NativeCall::Restore)) == depth_delta(log),
{
    let saved = log.push(NativeCall::Save);
    let restored = saved.push(NativeCall::Restore);
    assert(saved.drop_last() =~= log);
    assert(depth_delta(saved) == depth_delta(log) + 1);
    assert(restored.drop_last() =~= saved);
    assert(depth_delta(restored) == depth_delta(saved) - 1);
}

/// The state-stack effect of forwarded calls is additive over
/// concatenation.
pub proof fn lemma_depth_delta_concat(a: Seq<NativeCall>, b: Seq<NativeCall>)
    ensures
        depth_delta(a + b) == depth_delta(a) + depth_delta(b),
    decreases b.len(),
{
    if b.len() == 0 {
        assert(a + b =~= a);
    } else {
        lemma_depth_delta_concat(a, b.drop_last());
        assert((a + b).drop_last() =~= a + b.drop_last());
        assert((a + b).last() == b.last());
    }
}

/// Nested save/restore pairs balance: a save, then any block of calls whose
/// own saves and restores balance, then the matching restore, together
/// leave the native state stack's depth exactly as it was.
pub proof fn lemma_nested_save_restore_balance(log: Seq<NativeCall>, inner: Seq<NativeCall>)
    requires
        depth_delta(inner) == 0,
    ensures
        depth_delta(log + seq![NativeCall::Save] + inner + seq![NativeCall::Restore])
            == depth_delta(log),
{
    let opened = log + seq![NativeCall::Save];
    let body = opened + inner;
    let closed = body + seq![NativeCall::Restore];
    lemma_depth_delta_concat(log, seq![NativeCall::Save]);
    assert(depth_delta(seq![NativeCall::Save]) == 1) by {
        assert(depth_delta(Seq::<NativeCall>::empty()) == 0);
        assert(seq![NativeCall::Save].drop_last() =~= Seq::<NativeCall>::empty());
        assert(seq![NativeCall::Save].last() == NativeCall::Save);
    }
    lemma_depth_delta_concat(opened, inner);
    lemma_depth_delta_concat(body, seq![NativeCall::Restore]);
    assert(depth_delta(seq![NativeCall::Restore]) == -1) by {
        assert(depth_delta(Seq::<NativeCall>::empty()) == 0);
        assert(seq![NativeCall::Restore].drop_last() =~= Seq::<NativeCall>::empty());
        assert(seq![NativeCall::Restore].last() == NativeCall::Restore);
    }
}

/// A pixmap scale by the identity ratio is a no-op on the backing pixmap:
/// forwarding `Scale { FIXED_ONE, FIXED_ONE }` leaves the pixmap's
/// accumulated scale unchanged as an exact rational, on each axis
/// (numerator `scale_product`, denominator `pow_fixed_one` of the scale
/// count, compared by cross-multiplication).
pub proof fn lemma_identity_scale_is_pixmap_noop(log: Seq<NativeCall>)
    ensures
        ({
            let scaled = log.push(NativeCall::Scale { x_scale: FIXED_ONE, y_scale: FIXED_ONE });
            &&& scale_product_x(scaled) * pow_fixed_one(scale_call_count(log))
                == scale_product_x(log) * pow_fixed_one(scale_call_count(scaled))
            &&& scale_product_y(scaled) * pow_fixed_one(scale_call_count(log))
                == scale_product_y(log) * pow_fixed_one(scale_call_count(scaled))
        }),
{
    let scaled = log.push(NativeCall::Scale { x_scale: FIXED_ONE, y_scale: FIXED_ONE });
    assert(scaled.drop_last() =~= log);
    let px = scale_product_x(log);
    let py = scale_product_y(log);
    let unit = FIXED_ONE as int;
    let d = pow_fixed_one(scale_call_count(log));
    assert(scale_product_x(scaled) == px * unit);
    assert(scale_product_y(scaled) == py * unit);
    assert(scale_call_count(scaled) == scale_call_count(log) + 1);
    assert(pow_fixed_one(scale_call_count(log) + 1) == unit * d);
    assert((px * unit) * d == px * (unit * d)) by (nonlinear_arith);
    assert((py * unit) * d == py * (unit * d)) by (nonlinear_arith);
}

/// A blit at the surface origin places the image's pixels without any
/// offset: pixel (`px`, `py`) lands exactly `px` columns and `py` rows from
/// the origin, and in particular the image's top-left pixel lands exactly
/// at the surface origin.
pub proof fn lemma_draw_image_at_origin(px: nat, py: nat)
    ensures
        blit_dest(0, 0, px, py) == (px * (FIXED_ONE as int), py * (FIXED_ONE as int)),
        blit_dest(0, 0, 0, 0) == (0int, 0int),
{
}

} // verus!
