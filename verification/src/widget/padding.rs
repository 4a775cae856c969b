//! A widget that just adds padding during layout.

use vstd::prelude::*;
use crate::box_constraints::BoxConstraints;
use crate::contexts::{EventCtx, LayoutCtx, LayoutCtxView, LifeCycleCtx, UpdateCtx};
use crate::env::Env;
use crate::event::{Event, LifeCycle};
use crate::geometry::{Point, Rect, SCREEN_MAX, ScreenCoord, Size, Vec2};
use crate::id::{Counter, WidgetId};
use crate::paint::{PaintCtx, PaintCtxView, PaintOp};
use crate::pod::{Laid, PodView, WidgetPod};
use crate::widget::Widget;
use crate::widget::boxed_widget::{BoxedWidget, same_kinds, WidgetTable, WidgetType, WidgetView};

verus! {

/// A widget that just adds padding around its child.
pub struct Padding<T> {
    id: WidgetId,
    left: ScreenCoord,
    right: ScreenCoord,
    top: ScreenCoord,
    bottom: ScreenCoord,
    child: WidgetPod<T, BoxedWidget<T>>,
}

/// A padding widget, as plain values.
pub struct PaddingView {
    /// The identifier of the widget.
    pub id: WidgetId,
    /// The padding on the left.
    pub left: ScreenCoord,
    /// The padding on the right.
    pub right: ScreenCoord,
    /// The padding at the top.
    pub top: ScreenCoord,
    /// The padding at the bottom.
    pub bottom: ScreenCoord,
    /// The pod of the child.
    pub child: PodView,
}

impl PaddingView {
    /// Whether the child was made before the widget.
    pub open spec fn well_formed(self) -> bool {
        self.child.inner.0 < self.id.0
    }

    /// The padding on both sides of each axis.
    pub open spec fn pad(self) -> Size {
        Size {
            width: self.left.saturating_add(self.right),
            height: self.top.saturating_add(self.bottom),
        }
    }

    /// The constraints that the child is laid out with: the widget's own,
    /// shrunk by the padding.
    pub open spec fn child_constraints(self, bc: BoxConstraints) -> BoxConstraints {
        bc.spec_shrink(self.pad())
    }

    /// The size that the widget reports for a child of the given size: the
    /// child's size with the padding added back.
    pub open spec fn own_size(self, child_size: Size) -> Size {
        Size {
            width: child_size.width.saturating_add(self.pad().width),
            height: child_size.height.saturating_add(self.pad().height),
        }
    }

    /// Where the child is placed: offset by the leading padding.
    pub open spec fn child_rect(self, child_size: Size) -> Rect {
        Rect::spec_from_origin_size(Point { x: self.left, y: self.top }, child_size)
    }

    /// The layout of the widget and, through its pod, of its child.
    pub open spec fn layout(
        self,
        slots: Seq<WidgetView>,
        ctx: LayoutCtxView,
        bc: BoxConstraints,
    ) -> Laid<PaddingView>
        decreases self.id.0, 2int, 0int,
    {
        if self.well_formed() {
            let r = self.child.layout(slots, ctx, self.child_constraints(bc));
            let child = r.widget.with_layout_rect(self.child_rect(r.size));
            let my_size = self.own_size(r.size);
            Laid {
                size: my_size,
                widget: PaddingView { child, ..self },
                slots: r.slots,
                ctx: r.ctx.with_paint_insets(child.state.parent_paint_insets(my_size)),
            }
        } else {
            Laid { size: Size::spec_zero(), widget: self, slots, ctx }
        }
    }
}

impl<T> Padding<T> {
    /// The widget as plain values.
    pub closed spec fn view(&self) -> PaddingView {
        PaddingView {
            id: self.id,
            left: self.left,
            right: self.right,
            top: self.top,
            bottom: self.bottom,
            child: self.child@,
        }
    }

    /// Create a new widget with the specified padding on each edge. The
    /// child moves into the table.
    pub fn new<W: Widget<T>>(
        counter: &mut Counter,
        table: &mut WidgetTable<T>,
        left: ScreenCoord,
        top: ScreenCoord,
        right: ScreenCoord,
        bottom: ScreenCoord,
        child: W,
    ) -> (padding: Padding<T>)
        requires
            !old(counter).spec_is_exhausted(),
            old(table).wf(),
            old(table).accepts(child.spec_to_type()),
            child.spec_to_type().id() matches Some(cid) && cid.0 < old(counter)@,
        ensures
            padding@.id.0 == old(counter)@,
            padding@.left == left,
            padding@.top == top,
            padding@.right == right,
            padding@.bottom == bottom,
            Some(padding@.child.inner) == child.spec_to_type().id(),
            padding@.child == PodView::fresh(padding@.child.inner),
            padding@.well_formed(),
            final(counter)@ == old(counter)@ + 1,
            final(table)@ == old(table)@.update(
                padding@.child.inner.0 as int,
                child.spec_to_type(),
            ),
            final(table).wf(),
    {
        proof {
            child.lemma_id_of_type();
        }
        let pod = WidgetPod::new(child).boxed(table);
        proof {
            pod.lemma_view();
        }
        Padding { id: WidgetId::next(counter), left, right, top, bottom, child: pod }
    }

    /// Create a new widget with the same padding on all four edges.
    pub fn uniform<W: Widget<T>>(
        counter: &mut Counter,
        table: &mut WidgetTable<T>,
        all: ScreenCoord,
        child: W,
    ) -> (padding: Padding<T>)
        requires
            !old(counter).spec_is_exhausted(),
            old(table).wf(),
            old(table).accepts(child.spec_to_type()),
            child.spec_to_type().id() matches Some(cid) && cid.0 < old(counter)@,
        ensures
            padding@.id.0 == old(counter)@,
            padding@.left == all,
            padding@.top == all,
            padding@.right == all,
            padding@.bottom == all,
            Some(padding@.child.inner) == child.spec_to_type().id(),
            padding@.child == PodView::fresh(padding@.child.inner),
            padding@.well_formed(),
            final(counter)@ == old(counter)@ + 1,
            final(table)@ == old(table)@.update(
                padding@.child.inner.0 as int,
                child.spec_to_type(),
            ),
            final(table).wf(),
    {
        Padding::new(counter, table, all, all, all, all, child)
    }

    /// The pod through which the widget holds its child.
    pub fn child(&self) -> (pod: &WidgetPod<T, BoxedWidget<T>>)
        ensures
            pod@ == self@.child,
    {
        &self.child
    }

    /// Lay out the widget: the child is laid out under the constraints
    /// shrunk by the padding and placed behind the leading padding; the
    /// widget reports the child's size with the padding added back.
    pub fn layout(
        &mut self,
        table: &mut WidgetTable<T>,
        ctx: &mut LayoutCtx,
        bc: &BoxConstraints,
        data: &T,
        env: &Env,
    ) -> (size: Size)
        requires
            old(table).wf(),
            old(self)@.well_formed(),
            (old(self)@.child.inner.0 as int) < old(table)@.len(),
        ensures
            size == old(self)@.layout(old(table)@, old(ctx)@, *bc).size,
            final(self)@ == old(self)@.layout(old(table)@, old(ctx)@, *bc).widget,
            final(table)@ == old(self)@.layout(old(table)@, old(ctx)@, *bc).slots,
            final(ctx)@ == old(self)@.layout(old(table)@, old(ctx)@, *bc).ctx,
            final(table).wf(),
            final(table)@.len() == old(table)@.len(),
            same_kinds(final(table)@, old(table)@),
            final(self)@.id == old(self)@.id,
            final(self)@.well_formed(),
        decreases old(self)@.id.0, 2int, 0int,
    {
        let hpad: ScreenCoord = self.left.saturating_add(self.right);
        let vpad: ScreenCoord = self.top.saturating_add(self.bottom);
        let child_bc = bc.shrink(Size::new(hpad, vpad));
        let size = self.child.layout(table, ctx, &child_bc, data, env);
        let origin = Point::new(self.left, self.top);
        self.child.set_layout_rect(ctx, data, env, Rect::from_origin_size(origin, size));
        let my_size = Size::new(size.width.saturating_add(hpad), size.height.saturating_add(vpad));
        proof {
            self.child.lemma_view();
        }
        let my_insets = self.child.compute_parent_paint_insets(my_size);
        ctx.set_paint_insets(my_insets);
        my_size
    }
}

impl<T> Padding<T> {
    /// Forward an event to the child. Nothing changes.
    pub fn event(
        &mut self,
        table: &mut WidgetTable<T>,
        ctx: &mut EventCtx,
        event: &Event,
        data: &mut T,
        env: &Env,
    )
        requires
            old(table).wf(),
            old(self)@.well_formed(),
            (old(self)@.child.inner.0 as int) < old(table)@.len(),
        ensures
            final(self)@ == old(self)@,
            final(table)@ == old(table)@,
            *final(ctx) == *old(ctx),
            *final(data) == *old(data),
        decreases old(self)@.id.0, 2int, 0int,
    {
        self.child.event(table, ctx, event, data, env);
    }

    /// Forward a lifecycle notification to the child. Nothing changes.
    pub fn lifecycle(
        &mut self,
        table: &mut WidgetTable<T>,
        ctx: &mut LifeCycleCtx,
        event: &LifeCycle,
        data: &T,
        env: &Env,
    )
        requires
            old(table).wf(),
            old(self)@.well_formed(),
            (old(self)@.child.inner.0 as int) < old(table)@.len(),
        ensures
            final(self)@ == old(self)@,
            final(table)@ == old(table)@,
            final(ctx)@ == old(ctx)@,
        decreases old(self)@.id.0, 2int, 0int,
    {
        self.child.lifecycle(table, ctx, event, data, env);
    }

    /// Forward a data update to the child. Nothing changes.
    pub fn update(
        &mut self,
        table: &mut WidgetTable<T>,
        ctx: &mut UpdateCtx,
        old_data: &T,
        data: &T,
        env: &Env,
    )
        requires
            old(table).wf(),
            old(self)@.well_formed(),
            (old(self)@.child.inner.0 as int) < old(table)@.len(),
        ensures
            final(self)@ == old(self)@,
            final(table)@ == old(table)@,
            final(ctx)@ == old(ctx)@,
        decreases old(self)@.id.0, 2int, 0int,
    {
        self.child.update(table, ctx, data, env);
    }
}

impl PaddingView {
    /// What painting the widget records: what its child records.
    pub open spec fn painted(self, slots: Seq<WidgetView>, region: Rect, offset: Vec2) -> Seq<
        PaintOp,
    >
        decreases self.id.0, 2int, 0int,
    {
        if self.well_formed() {
            self.child.painted(slots, region, offset)
        } else {
            Seq::<PaintOp>::empty()
        }
    }
}

impl<T> Padding<T> {
    /// Paint the widget: the child paints; the widget itself draws nothing.
    pub fn paint(
        &mut self,
        table: &mut WidgetTable<T>,
        ctx: &mut PaintCtx,
        data: &T,
        env: &Env,
    )
        requires
            old(table).wf(),
            old(self)@.well_formed(),
            (old(self)@.child.inner.0 as int) < old(table)@.len(),
            old(ctx)@.depth + old(self)@.id.0 <= u32::MAX,
        ensures
            final(self)@ == old(self)@,
            final(table)@ == old(table)@,
            final(ctx)@ == (PaintCtxView {
                render: old(ctx)@.render.with_ops(
                    old(self)@.painted(old(table)@, old(ctx)@.region, old(ctx)@.render.offset),
                ),
                ..old(ctx)@
            }),
        decreases old(self)@.id.0, 2int, 0int,
    {
        self.child.paint(table, ctx, data, env);
    }
}

/// Padding round trip: as long as no sum passes the largest coordinate, the
/// widget reports the child's size plus the padding of both sides, and the
/// child's rect starts at the leading padding and has the child's size.
pub proof fn lemma_padding_round_trip(p: PaddingView, child_size: Size)
    requires
        child_size.width + p.left + p.right <= SCREEN_MAX,
        child_size.height + p.top + p.bottom <= SCREEN_MAX,
    ensures
        p.own_size(child_size).width == child_size.width + p.left + p.right,
        p.own_size(child_size).height == child_size.height + p.top + p.bottom,
        p.child_rect(child_size).spec_origin() == (Point { x: p.left, y: p.top }),
        p.child_rect(child_size).spec_size() == child_size,
{
}

/// The same law for a whole layout pass under constraints without an upper
/// bound: whatever size the child reports, the widget adds the padding.
pub proof fn lemma_layout_adds_padding(
    p: PaddingView,
    slots: Seq<WidgetView>,
    ctx: LayoutCtxView,
    bc: BoxConstraints,
)
    requires
        p.well_formed(),
        p.child.layout(slots, ctx, p.child_constraints(bc)).size.width + p.left + p.right
            <= SCREEN_MAX,
        p.child.layout(slots, ctx, p.child_constraints(bc)).size.height + p.top + p.bottom
            <= SCREEN_MAX,
    ensures
        p.layout(slots, ctx, bc).size.width == p.child.layout(
            slots,
            ctx,
            p.child_constraints(bc),
        ).size.width + p.left + p.right,
        p.layout(slots, ctx, bc).size.height == p.child.layout(
            slots,
            ctx,
            p.child_constraints(bc),
        ).size.height + p.top + p.bottom,
        p.layout(slots, ctx, bc).widget.child.state.layout_rect.spec_origin() == (Point {
            x: p.left,
            y: p.top,
        }),
        !bc.spec_is_width_bounded() ==> !p.child_constraints(bc).spec_is_width_bounded(),
        !bc.spec_is_height_bounded() ==> !p.child_constraints(bc).spec_is_height_bounded(),
{
    broadcast use BoxConstraints::lemma_from_parts;

    lemma_padding_round_trip(p, p.child.layout(slots, ctx, p.child_constraints(bc)).size);
}

impl<T> Widget<T> for Padding<T> {
    open spec fn spec_id(&self) -> Option<WidgetId> {
        Some(self@.id)
    }

    open spec fn spec_to_type(self) -> WidgetView {
        WidgetView::Padding(self@)
    }

    fn id(&self) -> (id: Option<WidgetId>) {
        Some(self.id)
    }

    open spec fn spec_kind_name(&self) -> Seq<char> {
        "Padding"@
    }

    fn kind_name(&self) -> (name: &'static str) {
        "Padding"
    }

    fn to_type(self) -> (w: WidgetType<T>) {
        WidgetType::Padding(self)
    }

    proof fn lemma_id_of_type(&self) {
    }
}

} // verus!
