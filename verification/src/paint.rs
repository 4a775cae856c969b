//! The painting context and the record of what was painted.
//!
//! The library does not draw. A paint pass records, for every leaf that is
//! visible, what is to be drawn and where; the host replays the record on
//! its drawing surface.

use vstd::prelude::*;
use vstd::string::*;
use crate::contexts::{ContextState, WidgetState, WidgetStateView};
use crate::geometry::{Rect, Size, Vec2};
use crate::id::WidgetId;
use crate::region::Region;
use crate::text::Text;

verus! {

/// The error of a drawing surface, in words.
pub type PlatformError = Text;

/// One drawing operation: the content of the widget `id` is drawn into
/// `rect`, which is given in the coordinates of the window.
#[derive(Clone, Copy, Debug, PartialEq, Eq, Structural)]
pub struct PaintOp {
    /// The widget whose content is drawn.
    pub id: WidgetId,
    /// Where it is drawn.
    pub rect: Rect,
}

/// A deferred paint operation. None is ever deferred.
#[derive(Clone, Copy, Debug, PartialEq, Eq, Structural)]
pub struct ZOrderPaintOp();

/// The state of a drawing surface: the shift of the origin in force, the
/// shifts that were saved, and the operations recorded so far.
pub struct Piet {
    offset: Vec2,
    saved: Vec<Vec2>,
    ops: Vec<PaintOp>,
}

/// What a [`Piet`] holds, as plain values.
pub struct PietView {
    /// The position of the local origin in the window.
    pub offset: Vec2,
    /// The origins that were saved and not restored yet, oldest first.
    pub saved: Seq<Vec2>,
    /// The operations recorded so far, oldest first.
    pub ops: Seq<PaintOp>,
}

impl PietView {
    /// The surface after a save.
    pub open spec fn saved(self) -> PietView {
        PietView { saved: self.saved.push(self.offset), ..self }
    }

    /// The surface after a restore that found something to restore.
    pub open spec fn restored(self) -> PietView {
        PietView { offset: self.saved.last(), saved: self.saved.drop_last(), ..self }
    }

    /// The surface after the origin has moved by `v`.
    pub open spec fn translated(self, v: Vec2) -> PietView {
        PietView { offset: self.offset.spec_plus(v), ..self }
    }

    /// The surface after the content of `id`, of the given size, was drawn
    /// at the local origin.
    pub open spec fn drawn(self, id: WidgetId, size: Size) -> PietView {
        PietView { ops: self.ops.push(self.op_at_origin(id, size)), ..self }
    }

    /// The operation that draws the content of `id`, of the given size, at
    /// the local origin.
    pub open spec fn op_at_origin(self, id: WidgetId, size: Size) -> PaintOp {
        PaintOp { id, rect: Rect::spec_from_origin_size(self.offset.spec_to_point(), size) }
    }

    /// The surface with more operations recorded.
    pub open spec fn with_ops(self, more: Seq<PaintOp>) -> PietView {
        PietView { ops: self.ops + more, ..self }
    }
}

impl Piet {
    /// The surface as plain values.
    pub closed spec fn view(&self) -> PietView {
        PietView { offset: self.offset, saved: self.saved@, ops: self.ops@ }
    }

    /// A surface with its origin at zero on which nothing was drawn.
    pub fn new() -> (p: Piet)
        ensures
            p@ == (PietView {
                offset: Vec2 { x: 0, y: 0 },
                saved: Seq::<Vec2>::empty(),
                ops: Seq::<PaintOp>::empty(),
            }),
    {
        Piet { offset: Vec2::zero(), saved: Vec::new(), ops: Vec::new() }
    }

    /// Saves the origin in force. It never fails.
    pub fn save(&mut self) -> (r: Result<(), PlatformError>)
        ensures
            r is Ok,
            final(self)@ == old(self)@.saved(),
    {
        self.saved.push(self.offset);
        Ok(())
    }

    /// Puts the origin saved last back in force. Without a saved origin it
    /// fails and leaves the surface as it is.
    pub fn restore(&mut self) -> (r: Result<(), PlatformError>)
        ensures
            r is Ok <==> old(self)@.saved.len() > 0,
            r is Ok ==> final(self)@ == old(self)@.restored(),
            r is Err ==> final(self)@ == old(self)@,
            r matches Err(e) ==> e@ == "unbalanced restore"@,
    {
        match self.saved.pop() {
            Some(offset) => {
                self.offset = offset;
                Ok(())
            },
            None => {
                let message = "unbalanced restore";
                proof {
                    reveal_strlit("unbalanced restore");
                    assert(is_ascii(message));
                    is_ascii_spec_bytes(message);
                }
                Err(Text::from_str(message).unwrap())
            },
        }
    }

    /// Moves the local origin by `v`.
    pub fn translate(&mut self, v: Vec2)
        ensures
            final(self)@ == old(self)@.translated(v),
    {
        self.offset = self.offset.plus(v);
    }

    /// Records that the content of `id`, of the given size, is drawn at the
    /// local origin.
    pub fn draw(&mut self, id: WidgetId, size: Size)
        ensures
            final(self)@ == old(self)@.drawn(id, size),
    {
        let rect = Rect::from_origin_size(self.offset.to_point(), size);
        self.ops.push(PaintOp { id, rect });
    }

    /// The number of operations recorded.
    pub fn op_count(&self) -> (n: usize)
        ensures
            n == self@.ops.len(),
    {
        self.ops.len()
    }

    /// The `i`-th operation recorded.
    pub fn op(&self, i: usize) -> (op: PaintOp)
        requires
            i < self@.ops.len(),
        ensures
            op == self@.ops[i as int],
    {
        self.ops[i]
    }
}

/// A context passed to paint methods of widgets.
pub struct PaintCtx {
    /// State shared by the contexts of the pass.
    pub state: ContextState,
    widget_state: WidgetState,
    render_ctx: Piet,
    region: Region,
    depth: u32,
}

/// What a [`PaintCtx`] holds, as plain values.
pub struct PaintCtxView {
    /// The state of the widget that is being painted.
    pub widget_state: WidgetStateView,
    /// The drawing surface.
    pub render: PietView,
    /// The bound of what has to be painted, in local coordinates.
    pub region: Rect,
    /// The depth of the widget that is being painted below the root.
    pub depth: u32,
}

impl PaintCtxView {
    /// The context after the drawing surface was saved.
    pub open spec fn saving(self) -> PaintCtxView {
        PaintCtxView { render: self.render.saved(), ..self }
    }

    /// The context after an attempt to restore the drawing surface: the
    /// surface is restored where something was saved, else nothing changes.
    pub open spec fn restoring(self) -> PaintCtxView {
        if self.render.saved.len() > 0 {
            PaintCtxView { render: self.render.restored(), ..self }
        } else {
            self
        }
    }

    /// The context of a child that paints `region`: one level deeper, with
    /// the same widget state and the same drawing surface.
    pub open spec fn for_child(self, region: Rect) -> PaintCtxView {
        PaintCtxView { region, depth: (self.depth + 1) as u32, ..self }
    }
}

impl PaintCtx {
    /// The context as plain values.
    pub closed spec fn view(&self) -> PaintCtxView {
        PaintCtxView {
            widget_state: self.widget_state@,
            render: self.render_ctx@,
            region: self.region@,
            depth: self.depth,
        }
    }

    /// A context for the root of a tree that paints `region` on a new surface.
    pub fn new(region: Region) -> (ctx: PaintCtx)
        ensures
            ctx@ == (PaintCtxView {
                widget_state: WidgetStateView::initial(),
                render: PietView {
                    offset: Vec2 { x: 0, y: 0 },
                    saved: Seq::<Vec2>::empty(),
                    ops: Seq::<PaintOp>::empty(),
                },
                region: region@,
                depth: 0,
            }),
    {
        PaintCtx {
            state: ContextState(),
            widget_state: WidgetState::new(),
            render_ctx: Piet::new(),
            region,
            depth: 0,
        }
    }

    /// Returns the currently visible region.
    pub fn region(&self) -> (r: Region)
        ensures
            r@ == self@.region,
    {
        self.region
    }

    /// The depth of the widget that is being painted below the root.
    pub fn depth(&self) -> (d: u32)
        ensures
            d == self@.depth,
    {
        self.depth
    }

    /// The layout size of the widget that is being painted.
    pub fn size(&self) -> (s: Size)
        ensures
            s == self@.widget_state.layout_rect.spec_size(),
    {
        self.widget_state.size()
    }

    /// The drawing surface.
    pub fn render_ctx(&self) -> (p: &Piet)
        ensures
            p@ == self@.render,
    {
        &self.render_ctx
    }

    /// Saves the state of the drawing surface. It never fails.
    pub fn save(&mut self) -> (r: Result<(), PlatformError>)
        ensures
            r is Ok,
            final(self)@ == (PaintCtxView { render: old(self)@.render.saved(), ..old(self)@ }),
    {
        self.render_ctx.save()
    }

    /// Restores the state of the drawing surface that was saved last.
    /// Without a saved state it fails and changes nothing.
    pub fn restore(&mut self) -> (r: Result<(), PlatformError>)
        ensures
            r is Ok <==> old(self)@.render.saved.len() > 0,
            r is Ok ==> final(self)@ == (PaintCtxView {
                render: old(self)@.render.restored(),
                ..old(self)@
            }),
            r is Err ==> final(self)@ == old(self)@,
            r matches Err(e) ==> e@ == "unbalanced restore"@,
    {
        self.render_ctx.restore()
    }

    /// Moves the local origin of the drawing surface by `v`.
    pub fn translate(&mut self, v: Vec2)
        ensures
            final(self)@ == (PaintCtxView {
                render: old(self)@.render.translated(v),
                ..old(self)@
            }),
    {
        self.render_ctx.translate(v);
    }

    /// Records that the content of `id` is drawn at the local origin, in
    /// the size of the widget that is being painted.
    pub fn draw(&mut self, id: WidgetId)
        ensures
            final(self)@ == (PaintCtxView {
                render: old(self)@.render.drawn(
                    id,
                    old(self)@.widget_state.layout_rect.spec_size(),
                ),
                ..old(self)@
            }),
    {
        let size = self.widget_state.size();
        self.render_ctx.draw(id, size);
    }

    /// Saves the drawing surface, calls `f`, and restores the surface.
    ///
    /// The surface that `f` leaves is restored once. Where `f` has restored
    /// more than it has saved, there is nothing left to restore, and the
    /// context stays as `f` left it.
    pub fn with_save<F: FnOnce(&mut PaintCtx)>(&mut self, f: F)
        requires
            forall|c: &mut PaintCtx| (*c)@ == old(self)@.saving() ==> call_requires(f, (c,)),
        ensures
            exists|c: &mut PaintCtx|
                {
                    &&& call_ensures(f, (c,), ())
                    &&& (*c)@ == old(self)@.saving()
                    &&& final(self)@ == (*final(c))@.restoring()
                },
    {
        if self.save().is_err() {
            return ;
        }
        f(self);
        let restored = self.restore();
    }

    /// Calls `f` with the context of a child that paints `region`: the
    /// region is `region` and the depth is one more. Of what `f` does to
    /// the context only the drawing surface is kept.
    ///
    /// This is used by containers to ensure that their children have the
    /// correct visible region given their layout.
    pub fn with_child_ctx<F: FnOnce(&mut PaintCtx)>(&mut self, region: Region, f: F)
        requires
            old(self)@.depth < u32::MAX,
            forall|c: &mut PaintCtx|
                (*c)@ == old(self)@.for_child(region@) ==> call_requires(f, (c,)),
        ensures
            exists|c: &mut PaintCtx|
                {
                    &&& call_ensures(f, (c,), ())
                    &&& (*c)@ == old(self)@.for_child(region@)
                    &&& final(self)@ == (PaintCtxView {
                        render: (*final(c))@.render,
                        ..old(self)@
                    })
                },
    {
        let parent_region = self.region;
        let parent_depth: u32 = self.depth;
        let parent_state = self.widget_state.clone();
        self.region = region;
        self.depth = self.depth + 1;
        assert(self@ == old(self)@.for_child(region@));
        f(self);
        self.region = parent_region;
        self.depth = parent_depth;
        self.widget_state = parent_state;
    }

    /// Enters the context of a child: the child's state takes the place of
    /// the parent's, the region becomes `region`, and the depth grows by
    /// one. `state` receives the parent's state; the parent's region is
    /// returned.
    pub fn enter_child(&mut self, state: &mut WidgetState, region: Region) -> (parent_region:
        Region)
        requires
            old(self)@.depth < u32::MAX,
        ensures
            parent_region@ == old(self)@.region,
            final(state)@ == old(self)@.widget_state,
            final(self)@ == (PaintCtxView {
                widget_state: old(state)@,
                region: region@,
                depth: (old(self)@.depth + 1) as u32,
                ..old(self)@
            }),
    {
        let parent_region = self.region;
        core::mem::swap(&mut self.widget_state, state);
        self.region = region;
        self.depth = self.depth + 1;
        parent_region
    }

    /// Leaves the context of a child: the reverse of [`PaintCtx::enter_child`].
    pub fn leave_child(&mut self, state: &mut WidgetState, parent_region: Region)
        requires
            old(self)@.depth > 0,
        ensures
            final(state)@ == old(self)@.widget_state,
            final(self)@ == (PaintCtxView {
                widget_state: old(state)@,
                region: parent_region@,
                depth: (old(self)@.depth - 1) as u32,
                ..old(self)@
            }),
    {
        core::mem::swap(&mut self.widget_state, state);
        self.region = parent_region;
        self.depth = self.depth - 1;
    }
}

} // verus!
