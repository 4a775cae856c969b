//! The fundamental type of the widget tree: the pod through which a parent
//! holds a child and records where it has placed it.

use vstd::prelude::*;
use crate::box_constraints::BoxConstraints;
use crate::contexts::{
    EventCtx, LayoutCtx, LayoutCtxView, LifeCycleCtx, UpdateCtx, WidgetState, WidgetStateView,
};
use crate::env::Env;
use crate::event::{Event, LifeCycle};
use crate::geometry::{Insets, Rect, Size, Vec2};
use crate::id::WidgetId;
use crate::paint::{PaintCtx, PaintCtxView, PaintOp};
use crate::region::{rect_is_empty, Region};
use crate::widget::Widget;
use crate::widget::boxed_widget::{
    BoxedWidget, layout_slot, paint_slot, same_kinds, WidgetTable, WidgetView,
};

verus! {

/// A container for one widget in the hierarchy.
///
/// Generally, container widgets don't contain other widgets directly,
/// but rather contain a `WidgetPod`, which has additional state needed
/// for layout and for the widget to participate in event flow.
pub struct WidgetPod<T, W> {
    state: WidgetState,
    marker: Option<T>,
    inner: W,
}

/// What a pod around a boxed widget holds, as plain values.
pub struct PodView {
    /// The state kept for the child between passes.
    pub state: WidgetStateView,
    /// The identifier under which the child stands in the widget table.
    pub inner: WidgetId,
}

/// What a layout of some widget gives: the size it reports, the widget and
/// the table after the pass, and the context after the pass.
pub struct Laid<W> {
    /// The size that the widget reports.
    pub size: Size,
    /// The widget after the pass.
    pub widget: W,
    /// The widget table after the pass.
    pub slots: Seq<WidgetView>,
    /// The layout context after the pass.
    pub ctx: LayoutCtxView,
}

impl PodView {
    /// A pod around the boxed widget `inner` that has not been laid out yet.
    pub open spec fn fresh(inner: WidgetId) -> PodView {
        PodView { state: WidgetStateView::initial(), inner }
    }

    /// The pod after its parent has placed the child at `rect`.
    pub open spec fn with_layout_rect(self, rect: Rect) -> PodView {
        PodView { state: WidgetStateView { layout_rect: rect, ..self.state }, inner: self.inner }
    }

    /// The layout of the child: the child is laid out with the pod's state
    /// in the context, and the pod keeps the state that comes back.
    pub open spec fn layout(
        self,
        slots: Seq<WidgetView>,
        ctx: LayoutCtxView,
        bc: BoxConstraints,
    ) -> Laid<PodView>
        decreases self.inner.0, 4int, 0int,
    {
        let r = layout_slot(slots, ctx.with_state(self.state), self.inner.0 as int, bc);
        Laid {
            size: r.size,
            widget: PodView { state: r.ctx.widget_state, inner: self.inner },
            slots: r.slots,
            ctx: r.ctx.with_state(ctx.widget_state),
        }
    }
}

impl PodView {
    /// What painting the child records. A child whose paint rect does not
    /// meet the region records nothing. Else the child paints with its own
    /// origin as the local origin, and with the part of the region that
    /// lies in its paint rect as the region.
    pub open spec fn painted(self, slots: Seq<WidgetView>, region: Rect, offset: Vec2) -> Seq<
        PaintOp,
    >
        decreases self.inner.0, 4int, 0int,
    {
        let paint_rect = self.state.paint_rect();
        if rect_is_empty(region.spec_intersect(paint_rect)) {
            Seq::<PaintOp>::empty()
        } else {
            let origin = Vec2 { x: self.state.layout_rect.x0, y: self.state.layout_rect.y0 };
            paint_slot(
                slots,
                self.inner.0 as int,
                self.state,
                region.spec_intersect(paint_rect).spec_translate_back(origin),
                offset.spec_plus(origin),
            )
        }
    }
}

impl<T, W> WidgetPod<T, W> {
    /// The state kept for the child between passes.
    pub closed spec fn state_view(&self) -> WidgetStateView {
        self.state@
    }

    /// The widget that the pod holds.
    pub closed spec fn spec_widget(&self) -> W {
        self.inner
    }

    /// Create a new widget pod.
    ///
    /// In a widget hierarchy, each widget is wrapped in a `WidgetPod`
    /// so it can participate in layout and event flow. The pod starts with
    /// a zero-size layout rect at the origin.
    pub fn new(inner: W) -> (pod: WidgetPod<T, W>)
        ensures
            pod.state_view() == WidgetStateView::initial(),
            pod.spec_widget() == inner,
    {
        WidgetPod { state: WidgetState::new(), marker: None, inner }
    }

    /// Return a reference to the inner widget.
    pub fn widget(&self) -> (w: &W)
        ensures
            *w == self.spec_widget(),
    {
        &self.inner
    }

    /// The layout rectangle: where the parent has placed the child, in the
    /// parent's coordinate space.
    pub fn layout_rect(&self) -> (r: Rect)
        ensures
            r == self.state_view().layout_rect,
    {
        self.state.layout_rect()
    }

    /// The paint rectangle: the layout rect grown by the paint insets.
    pub fn paint_rect(&self) -> (r: Rect)
        ensures
            r == self.state_view().paint_rect(),
    {
        self.state.paint_rect()
    }

    /// The paint insets for this widget: how far outside of its layout rect
    /// it may paint.
    pub fn paint_insets(&self) -> (i: Insets)
        ensures
            i == self.state_view().paint_insets,
    {
        self.state.paint_insets()
    }

    /// Given a parent's size, determine the appropriate paint insets for
    /// the parent: how far this child's paint rect reaches outside of it.
    pub fn compute_parent_paint_insets(&self, parent_size: Size) -> (i: Insets)
        ensures
            i == self.state_view().parent_paint_insets(parent_size),
    {
        self.state.compute_parent_paint_insets(parent_size)
    }
}

impl<T, W: Widget<T>> WidgetPod<T, W> {
    /// Box the contained widget: the widget moves into the table, under its
    /// own identifier, and the pod keeps the identifier.
    pub fn boxed(self, table: &mut WidgetTable<T>) -> (pod: WidgetPod<T, BoxedWidget<T>>)
        requires
            old(table).wf(),
            old(table).accepts(self.spec_widget().spec_to_type()),
        ensures
            Some(pod@.inner) == self.spec_widget().spec_id(),
            pod@.state == self.state_view(),
            final(table)@ == old(table)@.update(
                pod@.inner.0 as int,
                self.spec_widget().spec_to_type(),
            ),
            final(table).wf(),
    {
        let boxed = BoxedWidget::new(table, self.inner);
        WidgetPod { state: self.state, marker: self.marker, inner: boxed }
    }
}

impl<T> WidgetPod<T, BoxedWidget<T>> {
    /// The pod as plain values.
    pub closed spec fn view(&self) -> PodView {
        PodView { state: self.state@, inner: self.inner.0 }
    }

    /// The view of a boxed pod is made of its state and of its widget's identifier.
    pub proof fn lemma_view(&self)
        ensures
            self@.state == self.state_view(),
            self@.inner == self.spec_widget().0,
    {
    }

    /// A pod around a widget that stands in the table already.
    pub fn from_boxed(inner: BoxedWidget<T>) -> (pod: WidgetPod<T, BoxedWidget<T>>)
        ensures
            pod@ == PodView::fresh(inner.0),
    {
        WidgetPod { state: WidgetState::new(), marker: None, inner }
    }

    /// The identifier of the child.
    pub fn id(&self) -> (id: WidgetId)
        ensures
            id == self@.inner,
    {
        self.inner.0
    }

    /// Set the layout rect: the rectangle, in the parent's coordinates, at
    /// which the parent has decided to place the child.
    ///
    /// A container widget should call the child's layout method, and then
    /// call this method with the rectangle that it has chosen.
    pub fn set_layout_rect(&mut self, ctx: &mut LayoutCtx, data: &T, env: &Env, layout_rect: Rect)
        ensures
            final(self)@ == old(self)@.with_layout_rect(layout_rect),
            final(ctx)@ == old(ctx)@,
    {
        self.state.set_layout_rect(layout_rect);
    }

    /// Compute layout of the child. The child is asked for its size under
    /// the given constraints; the size that it reports is returned.
    ///
    /// The pod does not choose a position: after this call the parent
    /// places the child with [`WidgetPod::set_layout_rect`].
    pub fn layout(
        &mut self,
        table: &mut WidgetTable<T>,
        ctx: &mut LayoutCtx,
        bc: &BoxConstraints,
        data: &T,
        env: &Env,
    ) -> (size: Size)
        requires
            old(table).wf(),
            (old(self)@.inner.0 as int) < old(table)@.len(),
        ensures
            size == old(self)@.layout(old(table)@, old(ctx)@, *bc).size,
            final(self)@ == old(self)@.layout(old(table)@, old(ctx)@, *bc).widget,
            final(table)@ == old(self)@.layout(old(table)@, old(ctx)@, *bc).slots,
            final(ctx)@ == old(self)@.layout(old(table)@, old(ctx)@, *bc).ctx,
            final(table).wf(),
            final(table)@.len() == old(table)@.len(),
            same_kinds(final(table)@, old(table)@),
            final(self)@.inner == old(self)@.inner,
        decreases old(self)@.inner.0, 4int, 0int,
    {
        ctx.swap_state(&mut self.state);
        let size = self.inner.layout(table, ctx, bc, data, env);
        ctx.swap_state(&mut self.state);
        size
    }
}

impl<T> WidgetPod<T, BoxedWidget<T>> {
    /// Propagate an event to the inner widget. The pod adds nothing of its own.
    pub fn event(
        &mut self,
        table: &mut WidgetTable<T>,
        ctx: &mut EventCtx,
        event: &Event,
        data: &mut T,
        env: &Env,
    )
        requires
            old(table).wf(),
            (old(self)@.inner.0 as int) < old(table)@.len(),
        ensures
            final(self)@ == old(self)@,
            final(table)@ == old(table)@,
            *final(ctx) == *old(ctx),
            *final(data) == *old(data),
        decreases old(self)@.inner.0, 4int, 0int,
    {
        self.inner.event(table, ctx, event, data, env);
    }

    /// Propagate a lifecycle notification to the inner widget. The pod adds nothing of its own.
    pub fn lifecycle(
        &mut self,
        table: &mut WidgetTable<T>,
        ctx: &mut LifeCycleCtx,
        event: &LifeCycle,
        data: &T,
        env: &Env,
    )
        requires
            old(table).wf(),
            (old(self)@.inner.0 as int) < old(table)@.len(),
        ensures
            final(self)@ == old(self)@,
            final(table)@ == old(table)@,
            final(ctx)@ == old(ctx)@,
        decreases old(self)@.inner.0, 4int, 0int,
    {
        self.inner.lifecycle(table, ctx, event, data, env);
    }

    /// Propagate a data update to the inner widget. The pod adds nothing of its own.
    pub fn update(
        &mut self,
        table: &mut WidgetTable<T>,
        ctx: &mut UpdateCtx,
        data: &T,
        env: &Env,
    )
        requires
            old(table).wf(),
            (old(self)@.inner.0 as int) < old(table)@.len(),
        ensures
            final(self)@ == old(self)@,
            final(table)@ == old(table)@,
            final(ctx)@ == old(ctx)@,
        decreases old(self)@.inner.0, 4int, 0int,
    {
        self.inner.update(table, ctx, data, data, env);
    }
}

impl<T> WidgetPod<T, BoxedWidget<T>> {
    /// Paint the child, if it is visible.
    ///
    /// A child whose paint rect does not meet the region of the context is
    /// skipped. Else the drawing surface is saved and moved to the origin
    /// of the child, the child paints what of the region lies in its paint
    /// rect, and the surface is restored. Nothing of the layout changes.
    pub fn paint(
        &mut self,
        table: &mut WidgetTable<T>,
        ctx: &mut PaintCtx,
        data: &T,
        env: &Env,
    )
        requires
            old(table).wf(),
            (old(self)@.inner.0 as int) < old(table)@.len(),
            old(ctx)@.depth + old(self)@.inner.0 < u32::MAX,
        ensures
            final(self)@ == old(self)@,
            final(table)@ == old(table)@,
            final(ctx)@ == (PaintCtxView {
                render: old(ctx)@.render.with_ops(
                    old(self)@.painted(old(table)@, old(ctx)@.region, old(ctx)@.render.offset),
                ),
                ..old(ctx)@
            }),
        decreases old(self)@.inner.0, 4int, 0int,
    {
        let paint_rect = self.state.paint_rect();
        if !ctx.region().intersects(paint_rect) {
            assert(ctx@.render.ops + Seq::<PaintOp>::empty() =~= ctx@.render.ops);
            return ;
        }
        if ctx.save().is_err() {
            return ;
        }
        let layout_origin = self.state.layout_rect().origin().to_vec2();
        ctx.translate(layout_origin);
        let visible = ctx.region().to_rect().intersect(paint_rect) - layout_origin;
        let parent_region = ctx.enter_child(&mut self.state, Region::from_rect(visible));
        self.inner.paint(table, ctx, data, env);
        ctx.leave_child(&mut self.state, parent_region);
        let restored = ctx.restore();
        assert(old(ctx)@.render.saved.push(old(ctx)@.render.offset).drop_last() =~= old(
            ctx,
        )@.render.saved);
    }
}

} // verus!
