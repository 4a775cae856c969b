//! A widget that aligns its child (for example, centering it).

use vstd::prelude::*;
use crate::box_constraints::BoxConstraints;
use crate::contexts::{EventCtx, LayoutCtx, LayoutCtxView, LayoutWarning, LifeCycleCtx, UpdateCtx};
use crate::env::Env;
use crate::event::{Event, LifeCycle};
use crate::factor::{ScreenFactor, UnitPoint};
use crate::geometry::{Point, Rect, SCREEN_MAX, ScreenCoord, Size, Vec2};
use crate::id::{Counter, WidgetId};
use crate::paint::{PaintCtx, PaintCtxView, PaintOp};
use crate::pod::{Laid, PodView, WidgetPod};
use crate::widget::Widget;
use crate::widget::boxed_widget::{BoxedWidget, same_kinds, WidgetTable, WidgetType, WidgetView};

verus! {

/// A widget that aligns its child.
pub struct Align<T> {
    id: WidgetId,
    align: UnitPoint,
    child: WidgetPod<T, BoxedWidget<T>>,
    width_factor: Option<ScreenFactor>,
    height_factor: Option<ScreenFactor>,
}

/// An aligning widget, as plain values.
pub struct AlignView {
    /// The identifier of the widget.
    pub id: WidgetId,
    /// The anchor: the point of the unit square at which the spare room is split.
    pub align: UnitPoint,
    /// The pod of the child.
    pub child: PodView,
    /// If set, the width is this factor of the child's width.
    pub width_factor: Option<ScreenFactor>,
    /// If set, the height is this factor of the child's height.
    pub height_factor: Option<ScreenFactor>,
}

/// Which axes of a size are unbounded.
#[derive(Clone, Copy, Debug, PartialEq, Eq, Structural)]
pub struct SizeWarnings {
    /// The width is the largest coordinate.
    pub infinite_width: bool,
    /// The height is the largest coordinate.
    pub infinite_height: bool,
}

/// Tells which axes of the size that a child reported are unbounded. An
/// aligned child with an unbounded size is most likely a mistake.
pub fn log_size_warnings(size: Size) -> (w: SizeWarnings)
    ensures
        w.infinite_width == (size.width == SCREEN_MAX),
        w.infinite_height == (size.height == SCREEN_MAX),
{
    SizeWarnings {
        infinite_width: size.width == SCREEN_MAX,
        infinite_height: size.height == SCREEN_MAX,
    }
}

impl AlignView {
    /// Whether the child was made before the widget.
    pub open spec fn well_formed(self) -> bool {
        self.child.inner.0 < self.id.0
    }

    /// The size that the widget wants before it is clamped: on each axis
    /// the constraint's maximum where the axis is bounded, else the child's
    /// extent; a factor, where set, overrides both.
    pub open spec fn wanted_size(self, bc: BoxConstraints, child_size: Size) -> Size {
        Size {
            width: match self.width_factor {
                Some(f) => f.spec_scale(child_size.width),
                None => if bc.spec_is_width_bounded() {
                    bc.spec_max().width
                } else {
                    child_size.width
                },
            },
            height: match self.height_factor {
                Some(f) => f.spec_scale(child_size.height),
                None => if bc.spec_is_height_bounded() {
                    bc.spec_max().height
                } else {
                    child_size.height
                },
            },
        }
    }

    /// The size that the widget reports for a child of the given size.
    pub open spec fn own_size(self, bc: BoxConstraints, child_size: Size) -> Size {
        bc.spec_constrain(self.wanted_size(bc, child_size))
    }

    /// The origin of the child: the room that the child leaves on each
    /// axis, times the fraction of the anchor.
    pub open spec fn child_origin(self, bc: BoxConstraints, child_size: Size) -> Point {
        let my_size = self.own_size(bc, child_size);
        self.align.spec_resolve(
            Rect {
                x0: 0,
                y0: 0,
                x1: my_size.width.saturating_sub(child_size.width),
                y1: my_size.height.saturating_sub(child_size.height),
            },
        )
    }

    /// The context after the warnings about a child of the given size.
    pub open spec fn warned(self, ctx: LayoutCtxView, child_size: Size) -> LayoutCtxView {
        let c1 = if child_size.width == SCREEN_MAX {
            ctx.with_warning(LayoutWarning::InfiniteWidth(self.id))
        } else {
            ctx
        };
        if child_size.height == SCREEN_MAX {
            c1.with_warning(LayoutWarning::InfiniteHeight(self.id))
        } else {
            c1
        }
    }

    /// The layout of the widget and, through its pod, of its child.
    pub open spec fn layout(
        self,
        slots: Seq<WidgetView>,
        ctx: LayoutCtxView,
        bc: BoxConstraints,
    ) -> Laid<AlignView>
        decreases self.id.0, 2int, 0int,
    {
        if self.well_formed() {
            let r = self.child.layout(slots, ctx, bc.spec_loosen());
            let my_size = self.own_size(bc, r.size);
            let child = r.widget.with_layout_rect(
                Rect::spec_from_origin_size(self.child_origin(bc, r.size), r.size),
            );
            Laid {
                size: my_size,
                widget: AlignView { child, ..self },
                slots: r.slots,
                ctx: self.warned(r.ctx, r.size).with_paint_insets(
                    child.state.parent_paint_insets(my_size),
                ),
            }
        } else {
            Laid { size: Size::spec_zero(), widget: self, slots, ctx }
        }
    }
}

impl<T> Align<T> {
    /// The widget as plain values.
    pub closed spec fn view(&self) -> AlignView {
        AlignView {
            id: self.id,
            align: self.align,
            child: self.child@,
            width_factor: self.width_factor,
            height_factor: self.height_factor,
        }
    }

    /// Whether `a` is the widget that a constructor makes from the given
    /// parts, with `child` moved into the table.
    pub open spec fn made(
        a: AlignView,
        id: int,
        align: UnitPoint,
        child: WidgetView,
        width_factor: Option<ScreenFactor>,
        height_factor: Option<ScreenFactor>,
    ) -> bool {
        &&& a.id.0 == id
        &&& a.align == align
        &&& Some(a.child.inner) == child.id()
        &&& a.child == PodView::fresh(a.child.inner)
        &&& a.width_factor == width_factor
        &&& a.height_factor == height_factor
        &&& a.well_formed()
    }

    fn with_factors<W: Widget<T>>(
        counter: &mut Counter,
        table: &mut WidgetTable<T>,
        align: UnitPoint,
        child: W,
        width_factor: Option<ScreenFactor>,
        height_factor: Option<ScreenFactor>,
    ) -> (a: Align<T>)
        requires
            !old(counter).spec_is_exhausted(),
            old(table).wf(),
            old(table).accepts(child.spec_to_type()),
            child.spec_to_type().id() matches Some(cid) && cid.0 < old(counter)@,
        ensures
            Align::<T>::made(
                a@,
                old(counter)@ as int,
                align,
                child.spec_to_type(),
                width_factor,
                height_factor,
            ),
            final(counter)@ == old(counter)@ + 1,
            final(table)@ == old(table)@.update(a@.child.inner.0 as int, child.spec_to_type()),
            final(table).wf(),
    {
        proof {
            child.lemma_id_of_type();
        }
        let pod = WidgetPod::new(child).boxed(table);
        proof {
            pod.lemma_view();
        }
        Align { id: WidgetId::next(counter), align, child: pod, width_factor, height_factor }
    }

    /// Create widget with alignment. The child moves into the table.
    ///
    /// Note that the `align` parameter is specified as a `UnitPoint` in
    /// terms of left and right.
    pub fn new<W: Widget<T>>(
        counter: &mut Counter,
        table: &mut WidgetTable<T>,
        align: UnitPoint,
        child: W,
    ) -> (a: Align<T>)
        requires
            !old(counter).spec_is_exhausted(),
            old(table).wf(),
            old(table).accepts(child.spec_to_type()),
            child.spec_to_type().id() matches Some(cid) && cid.0 < old(counter)@,
        ensures
            Align::<T>::made(a@, old(counter)@ as int, align, child.spec_to_type(), None, None),
            final(counter)@ == old(counter)@ + 1,
            final(table)@ == old(table)@.update(a@.child.inner.0 as int, child.spec_to_type()),
            final(table).wf(),
    {
        Align::with_factors(counter, table, align, child, None, None)
    }

    /// Create centered widget.
    pub fn centered<W: Widget<T>>(
        counter: &mut Counter,
        table: &mut WidgetTable<T>,
        child: W,
    ) -> (a: Align<T>)
        requires
            !old(counter).spec_is_exhausted(),
            old(table).wf(),
            old(table).accepts(child.spec_to_type()),
            child.spec_to_type().id() matches Some(cid) && cid.0 < old(counter)@,
        ensures
            Align::<T>::made(
                a@,
                old(counter)@ as int,
                UnitPoint::spec_center(),
                child.spec_to_type(),
                None,
                None,
            ),
            final(counter)@ == old(counter)@ + 1,
            final(table)@ == old(table)@.update(a@.child.inner.0 as int, child.spec_to_type()),
            final(table).wf(),
    {
        Align::with_factors(counter, table, UnitPoint::center(), child, None, None)
    }

    /// Create right-aligned widget.
    pub fn right<W: Widget<T>>(counter: &mut Counter, table: &mut WidgetTable<T>, child: W) -> (a:
        Align<T>)
        requires
            !old(counter).spec_is_exhausted(),
            old(table).wf(),
            old(table).accepts(child.spec_to_type()),
            child.spec_to_type().id() matches Some(cid) && cid.0 < old(counter)@,
        ensures
            Align::<T>::made(
                a@,
                old(counter)@ as int,
                UnitPoint { u: crate::factor::frac_one(), v: crate::factor::frac_half() },
                child.spec_to_type(),
                None,
                None,
            ),
            final(counter)@ == old(counter)@ + 1,
            final(table)@ == old(table)@.update(a@.child.inner.0 as int, child.spec_to_type()),
            final(table).wf(),
    {
        Align::with_factors(counter, table, UnitPoint::right(), child, None, None)
    }

    /// Create left-aligned widget.
    pub fn left<W: Widget<T>>(counter: &mut Counter, table: &mut WidgetTable<T>, child: W) -> (a:
        Align<T>)
        requires
            !old(counter).spec_is_exhausted(),
            old(table).wf(),
            old(table).accepts(child.spec_to_type()),
            child.spec_to_type().id() matches Some(cid) && cid.0 < old(counter)@,
        ensures
            Align::<T>::made(
                a@,
                old(counter)@ as int,
                UnitPoint { u: crate::factor::frac_zero(), v: crate::factor::frac_half() },
                child.spec_to_type(),
                None,
                None,
            ),
            final(counter)@ == old(counter)@ + 1,
            final(table)@ == old(table)@.update(a@.child.inner.0 as int, child.spec_to_type()),
            final(table).wf(),
    {
        Align::with_factors(counter, table, UnitPoint::left(), child, None, None)
    }

    /// Align only in the horizontal axis, keeping the child's size in the vertical.
    pub fn horizontal<W: Widget<T>>(
        counter: &mut Counter,
        table: &mut WidgetTable<T>,
        align: UnitPoint,
        child: W,
    ) -> (a: Align<T>)
        requires
            !old(counter).spec_is_exhausted(),
            old(table).wf(),
            old(table).accepts(child.spec_to_type()),
            child.spec_to_type().id() matches Some(cid) && cid.0 < old(counter)@,
        ensures
            Align::<T>::made(
                a@,
                old(counter)@ as int,
                align,
                child.spec_to_type(),
                None,
                Some(ScreenFactor::spec_one()),
            ),
            final(counter)@ == old(counter)@ + 1,
            final(table)@ == old(table)@.update(a@.child.inner.0 as int, child.spec_to_type()),
            final(table).wf(),
    {
        Align::with_factors(counter, table, align, child, None, Some(ScreenFactor::one()))
    }

    /// Align only in the vertical axis, keeping the child's size in the horizontal.
    pub fn vertical<W: Widget<T>>(
        counter: &mut Counter,
        table: &mut WidgetTable<T>,
        align: UnitPoint,
        child: W,
    ) -> (a: Align<T>)
        requires
            !old(counter).spec_is_exhausted(),
            old(table).wf(),
            old(table).accepts(child.spec_to_type()),
            child.spec_to_type().id() matches Some(cid) && cid.0 < old(counter)@,
        ensures
            Align::<T>::made(
                a@,
                old(counter)@ as int,
                align,
                child.spec_to_type(),
                Some(ScreenFactor::spec_one()),
                None,
            ),
            final(counter)@ == old(counter)@ + 1,
            final(table)@ == old(table)@.update(a@.child.inner.0 as int, child.spec_to_type()),
            final(table).wf(),
    {
        Align::with_factors(counter, table, align, child, Some(ScreenFactor::one()), None)
    }

    /// The pod through which the widget holds its child.
    pub fn child(&self) -> (pod: &WidgetPod<T, BoxedWidget<T>>)
        ensures
            pod@ == self@.child,
    {
        &self.child
    }

    /// Lay out the widget.
    ///
    /// The child is laid out under the loosened constraints. The widget
    /// takes the constraint's maximum on each bounded axis, or the factor of
    /// the child's extent where a factor is set, clamped into the
    /// constraints. The room that the child leaves is split by the anchor.
    pub fn layout(
        &mut self,
        table: &mut WidgetTable<T>,
        ctx: &mut LayoutCtx,
        bc: &BoxConstraints,
        data: &T,
        env: &Env,
    ) -> (size: Size)
        requires
            old(table).wf(),
            old(self)@.well_formed(),
            (old(self)@.child.inner.0 as int) < old(table)@.len(),
        ensures
            size == old(self)@.layout(old(table)@, old(ctx)@, *bc).size,
            final(self)@ == old(self)@.layout(old(table)@, old(ctx)@, *bc).widget,
            final(table)@ == old(self)@.layout(old(table)@, old(ctx)@, *bc).slots,
            final(ctx)@ == old(self)@.layout(old(table)@, old(ctx)@, *bc).ctx,
            final(table).wf(),
            final(table)@.len() == old(table)@.len(),
            same_kinds(final(table)@, old(table)@),
            final(self)@.id == old(self)@.id,
            final(self)@.well_formed(),
        decreases old(self)@.id.0, 2int, 0int,
    {
        let size = self.child.layout(table, ctx, &bc.loosen(), data, env);

        let warnings = log_size_warnings(size);
        if warnings.infinite_width {
            ctx.warn(LayoutWarning::InfiniteWidth(self.id));
        }
        if warnings.infinite_height {
            ctx.warn(LayoutWarning::InfiniteHeight(self.id));
        }

        let mut my_size = size;
        if bc.is_width_bounded() {
            my_size.width = bc.max().width;
        }
        if bc.is_height_bounded() {
            my_size.height = bc.max().height;
        }

        if let Some(width) = self.width_factor {
            my_size.width = width.scale(size.width);
        }
        if let Some(height) = self.height_factor {
            my_size.height = height.scale(size.height);
        }

        my_size = bc.constrain(my_size);
        let extra_width: ScreenCoord = my_size.width.saturating_sub(size.width);
        let extra_height: ScreenCoord = my_size.height.saturating_sub(size.height);
        let origin = self.align.resolve(Rect::new(0, 0, extra_width, extra_height));
        self.child.set_layout_rect(ctx, data, env, Rect::from_origin_size(origin, size));

        proof {
            self.child.lemma_view();
        }
        let my_insets = self.child.compute_parent_paint_insets(my_size);
        ctx.set_paint_insets(my_insets);
        my_size
    }
}

impl<T> Align<T> {
    /// Forward an event to the child. Nothing changes.
    pub fn event(
        &mut self,
        table: &mut WidgetTable<T>,
        ctx: &mut EventCtx,
        event: &Event,
        data: &mut T,
        env: &Env,
    )
        requires
            old(table).wf(),
            old(self)@.well_formed(),
            (old(self)@.child.inner.0 as int) < old(table)@.len(),
        ensures
            final(self)@ == old(self)@,
            final(table)@ == old(table)@,
            *final(ctx) == *old(ctx),
            *final(data) == *old(data),
        decreases old(self)@.id.0, 2int, 0int,
    {
        self.child.event(table, ctx, event, data, env);
    }

    /// Forward a lifecycle notification to the child. Nothing changes.
    pub fn lifecycle(
        &mut self,
        table: &mut WidgetTable<T>,
        ctx: &mut LifeCycleCtx,
        event: &LifeCycle,
        data: &T,
        env: &Env,
    )
        requires
            old(table).wf(),
            old(self)@.well_formed(),
            (old(self)@.child.inner.0 as int) < old(table)@.len(),
        ensures
            final(self)@ == old(self)@,
            final(table)@ == old(table)@,
            final(ctx)@ == old(ctx)@,
        decreases old(self)@.id.0, 2int, 0int,
    {
        self.child.lifecycle(table, ctx, event, data, env);
    }

    /// Forward a data update to the child. Nothing changes.
    pub fn update(
        &mut self,
        table: &mut WidgetTable<T>,
        ctx: &mut UpdateCtx,
        old_data: &T,
        data: &T,
        env: &Env,
    )
        requires
            old(table).wf(),
            old(self)@.well_formed(),
            (old(self)@.child.inner.0 as int) < old(table)@.len(),
        ensures
            final(self)@ == old(self)@,
            final(table)@ == old(table)@,
            final(ctx)@ == old(ctx)@,
        decreases old(self)@.id.0, 2int, 0int,
    {
        self.child.update(table, ctx, data, env);
    }
}

impl AlignView {
    /// What painting the widget records: what its child records.
    pub open spec fn painted(self, slots: Seq<WidgetView>, region: Rect, offset: Vec2) -> Seq<
        PaintOp,
    >
        decreases self.id.0, 2int, 0int,
    {
        if self.well_formed() {
            self.child.painted(slots, region, offset)
        } else {
            Seq::<PaintOp>::empty()
        }
    }
}

impl<T> Align<T> {
    /// Paint the widget: the child paints; the widget itself draws nothing.
    pub fn paint(
        &mut self,
        table: &mut WidgetTable<T>,
        ctx: &mut PaintCtx,
        data: &T,
        env: &Env,
    )
        requires
            old(table).wf(),
            old(self)@.well_formed(),
            (old(self)@.child.inner.0 as int) < old(table)@.len(),
            old(ctx)@.depth + old(self)@.id.0 <= u32::MAX,
        ensures
            final(self)@ == old(self)@,
            final(table)@ == old(table)@,
            final(ctx)@ == (PaintCtxView {
                render: old(ctx)@.render.with_ops(
                    old(self)@.painted(old(table)@, old(ctx)@.region, old(ctx)@.render.offset),
                ),
                ..old(ctx)@
            }),
        decreases old(self)@.id.0, 2int, 0int,
    {
        self.child.paint(table, ctx, data, env);
    }
}

/// Centering: a centered widget without factors, under valid constraints
/// that bound both axes, takes the constraint's maximum as its size and
/// places a child that fits at half of the room that the child leaves,
/// rounded down.
pub proof fn lemma_centered_child_origin(a: AlignView, bc: BoxConstraints, child_size: Size)
    requires
        a.align == UnitPoint::spec_center(),
        a.width_factor is None,
        a.height_factor is None,
        bc.is_valid(),
        bc.spec_is_width_bounded(),
        bc.spec_is_height_bounded(),
        child_size.width <= bc.spec_max().width,
        child_size.height <= bc.spec_max().height,
    ensures
        a.own_size(bc, child_size) == bc.spec_max(),
        a.child_origin(bc, child_size).x == (bc.spec_max().width - child_size.width) / 2,
        a.child_origin(bc, child_size).y == (bc.spec_max().height - child_size.height) / 2,
{
    let extra_w = (bc.spec_max().width - child_size.width) as ScreenCoord;
    let extra_h = (bc.spec_max().height - child_size.height) as ScreenCoord;
    crate::factor::lemma_scale_simple_fractions(extra_w);
    crate::factor::lemma_scale_simple_fractions(extra_h);
}

/// The same law for a whole layout pass: whatever size the child reports
/// under the loosened constraints, if it fits, the child's rect starts at
/// half of the room that it leaves and has the size that it reported.
pub proof fn lemma_layout_centers_child(
    a: AlignView,
    slots: Seq<WidgetView>,
    ctx: LayoutCtxView,
    bc: BoxConstraints,
)
    requires
        a.well_formed(),
        a.align == UnitPoint::spec_center(),
        a.width_factor is None,
        a.height_factor is None,
        bc.is_valid(),
        bc.spec_is_width_bounded(),
        bc.spec_is_height_bounded(),
        a.child.layout(slots, ctx, bc.spec_loosen()).size.width <= bc.spec_max().width,
        a.child.layout(slots, ctx, bc.spec_loosen()).size.height <= bc.spec_max().height,
    ensures
        a.layout(slots, ctx, bc).size == bc.spec_max(),
        a.layout(slots, ctx, bc).widget.child.state.layout_rect == Rect::spec_from_origin_size(
            Point {
                x: ((bc.spec_max().width - a.child.layout(slots, ctx, bc.spec_loosen()).size.width)
                    / 2) as ScreenCoord,
                y: ((bc.spec_max().height - a.child.layout(
                    slots,
                    ctx,
                    bc.spec_loosen(),
                ).size.height) / 2) as ScreenCoord,
            },
            a.child.layout(slots, ctx, bc.spec_loosen()).size,
        ),
{
    let child_size = a.child.layout(slots, ctx, bc.spec_loosen()).size;
    lemma_centered_child_origin(a, bc, child_size);
}

/// An aligning widget reports a size that satisfies valid constraints.
pub proof fn lemma_own_size_admitted(a: AlignView, bc: BoxConstraints, child_size: Size)
    requires
        bc.is_valid(),
    ensures
        bc.admits(a.own_size(bc, child_size)),
{
}

impl<T> Widget<T> for Align<T> {
    open spec fn spec_id(&self) -> Option<WidgetId> {
        Some(self@.id)
    }

    open spec fn spec_to_type(self) -> WidgetView {
        WidgetView::Align(self@)
    }

    fn id(&self) -> (id: Option<WidgetId>) {
        Some(self.id)
    }

    open spec fn spec_kind_name(&self) -> Seq<char> {
        "Align"@
    }

    fn kind_name(&self) -> (name: &'static str) {
        "Align"
    }

    fn to_type(self) -> (w: WidgetType<T>) {
        WidgetType::Align(self)
    }

    proof fn lemma_id_of_type(&self) {
    }
}

} // verus!
