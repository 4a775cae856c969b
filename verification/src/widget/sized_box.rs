//! A widget with predefined size.

use vstd::prelude::*;
use crate::box_constraints::BoxConstraints;
use crate::contexts::{EventCtx, LayoutCtx, LayoutCtxView, LifeCycleCtx, UpdateCtx};
use crate::env::Env;
use crate::event::{Event, LifeCycle};
use crate::geometry::{max, min, Point, Rect, SCREEN_MAX, ScreenCoord, Size, Vec2};
use crate::id::{Counter, WidgetId};
use crate::paint::{PaintCtx, PaintCtxView, PaintOp};
use crate::pod::{Laid, PodView, WidgetPod};
use crate::widget::Widget;
use crate::widget::boxed_widget::{BoxedWidget, same_kinds, WidgetTable, WidgetType, WidgetView};

verus! {

/// A widget with predefined size.
///
/// If given a child, this widget forces its child to have a specific width
/// and/or height (assuming values are permitted by this widget's parent).
/// If either the width or height is not set, this widget will size itself
/// to match the child's size in that dimension.
///
/// If not given a child, it will try to size itself as close to the
/// specified height and width as possible given the parent's constraints.
/// If height or width is not set, it will be treated as zero.
pub struct SizedBox<T> {
    id: WidgetId,
    inner: Option<WidgetPod<T, BoxedWidget<T>>>,
    width: Option<ScreenCoord>,
    height: Option<ScreenCoord>,
}

/// A sized box, as plain values.
pub struct SizedBoxView {
    /// The identifier of the widget.
    pub id: WidgetId,
    /// The pod of the child, if the box has one.
    pub inner: Option<PodView>,
    /// The width that the box imposes, if any.
    pub width: Option<ScreenCoord>,
    /// The height that the box imposes, if any.
    pub height: Option<ScreenCoord>,
}

/// The bounds of one axis for the child: an imposed extent, clamped into
/// the incoming bounds, fixes the axis; an axis without one passes the
/// incoming bounds through.
pub open spec fn spec_axis_bounds(
    extent: Option<ScreenCoord>,
    lo: ScreenCoord,
    hi: ScreenCoord,
) -> (ScreenCoord, ScreenCoord) {
    match extent {
        Some(e) => {
            let v = crate::geometry::spec_min(crate::geometry::spec_max(e, lo), hi);
            (v, v)
        },
        None => (lo, hi),
    }
}

/// The bounds of one axis for the child.
#[verifier::when_used_as_spec(spec_axis_bounds)]
pub fn axis_bounds(extent: Option<ScreenCoord>, lo: ScreenCoord, hi: ScreenCoord) -> (r: (
    ScreenCoord,
    ScreenCoord,
))
    ensures
        r == spec_axis_bounds(extent, lo, hi),
{
    match extent {
        Some(e) => {
            let v: ScreenCoord = min(max(e, lo), hi);
            (v, v)
        },
        None => (lo, hi),
    }
}

impl SizedBoxView {
    /// Whether the child, if there is one, was made before the widget.
    pub open spec fn well_formed(self) -> bool {
        self.inner matches Some(pod) ==> pod.inner.0 < self.id.0
    }

    /// The constraints that the child is laid out with.
    pub open spec fn child_constraints(self, bc: BoxConstraints) -> BoxConstraints {
        let w = spec_axis_bounds(self.width, bc.spec_min().width, bc.spec_max().width);
        let h = spec_axis_bounds(self.height, bc.spec_min().height, bc.spec_max().height);
        BoxConstraints::from_parts(
            Size { width: w.0, height: h.0 },
            Size { width: w.1, height: h.1 },
        )
    }

    /// The size that a box without a child reports: the imposed extents,
    /// zero where none is set, clamped into the constraints.
    pub open spec fn empty_size(self, bc: BoxConstraints) -> Size {
        bc.spec_constrain(
            Size {
                width: match self.width {
                    Some(w) => w,
                    None => 0,
                },
                height: match self.height {
                    Some(h) => h,
                    None => 0,
                },
            },
        )
    }

    /// The layout of the widget and, through its pod, of its child.
    pub open spec fn layout(
        self,
        slots: Seq<WidgetView>,
        ctx: LayoutCtxView,
        bc: BoxConstraints,
    ) -> Laid<SizedBoxView>
        decreases self.id.0, 2int, 0int,
    {
        match self.inner {
            Some(pod) => {
                if pod.inner.0 < self.id.0 {
                    let r = pod.layout(slots, ctx, self.child_constraints(bc));
                    let child = r.widget.with_layout_rect(
                        Rect::spec_from_origin_size(Point { x: 0, y: 0 }, r.size),
                    );
                    Laid {
                        size: r.size,
                        widget: SizedBoxView { inner: Some(child), ..self },
                        slots: r.slots,
                        ctx: r.ctx,
                    }
                } else {
                    Laid { size: Size::spec_zero(), widget: self, slots, ctx }
                }
            },
            None => Laid { size: self.empty_size(bc), widget: self, slots, ctx },
        }
    }
}

impl<T> SizedBox<T> {
    /// The widget as plain values.
    pub closed spec fn view(&self) -> SizedBoxView {
        SizedBoxView {
            id: self.id,
            inner: match self.inner {
                Some(pod) => Some(pod@),
                None => None,
            },
            width: self.width,
            height: self.height,
        }
    }

    /// Construct container with child, and both width and height not set.
    /// The child moves into the table.
    pub fn new<W: Widget<T>>(counter: &mut Counter, table: &mut WidgetTable<T>, child: W) -> (b:
        SizedBox<T>)
        requires
            !old(counter).spec_is_exhausted(),
            old(table).wf(),
            old(table).accepts(child.spec_to_type()),
            child.spec_to_type().id() matches Some(cid) && cid.0 < old(counter)@,
        ensures
            b@.id.0 == old(counter)@,
            b@.inner matches Some(pod) && Some(pod.inner) == child.spec_to_type().id() && pod
                == PodView::fresh(pod.inner) && final(table)@ == old(table)@.update(
                pod.inner.0 as int,
                child.spec_to_type(),
            ),
            b@.width is None,
            b@.height is None,
            b@.well_formed(),
            final(counter)@ == old(counter)@ + 1,
            final(table).wf(),
    {
        proof {
            child.lemma_id_of_type();
        }
        let pod = WidgetPod::new(child).boxed(table);
        proof {
            pod.lemma_view();
        }
        SizedBox { id: WidgetId::next(counter), inner: Some(pod), width: None, height: None }
    }

    /// Construct container without child, and both width and height not set.
    ///
    /// If the widget is unchanged, it will do nothing, which can be useful
    /// if you want to draw a widget some of the time.
    pub fn empty(counter: &mut Counter) -> (b: SizedBox<T>)
        requires
            !old(counter).spec_is_exhausted(),
        ensures
            b@ == (SizedBoxView {
                id: WidgetId(old(counter)@),
                inner: None,
                width: None,
                height: None,
            }),
            final(counter)@ == old(counter)@ + 1,
    {
        SizedBox { id: WidgetId::next(counter), inner: None, width: None, height: None }
    }

    /// Set container's width.
    pub fn width(self, width: ScreenCoord) -> (b: SizedBox<T>)
        ensures
            b@ == (SizedBoxView { width: Some(width), ..self@ }),
    {
        SizedBox { id: self.id, inner: self.inner, width: Some(width), height: self.height }
    }

    /// Set container's height.
    pub fn height(self, height: ScreenCoord) -> (b: SizedBox<T>)
        ensures
            b@ == (SizedBoxView { height: Some(height), ..self@ }),
    {
        SizedBox { id: self.id, inner: self.inner, width: self.width, height: Some(height) }
    }

    /// Expand container to fit the parent.
    ///
    /// Only call this method if you want your widget to occupy all
    /// available space.
    pub fn expand(self) -> (b: SizedBox<T>)
        ensures
            b@ == (SizedBoxView { width: Some(SCREEN_MAX), height: Some(SCREEN_MAX), ..self@ }),
    {
        SizedBox {
            id: self.id,
            inner: self.inner,
            width: Some(SCREEN_MAX),
            height: Some(SCREEN_MAX),
        }
    }

    /// Expand the container on the x-axis.
    pub fn expand_width(self) -> (b: SizedBox<T>)
        ensures
            b@ == (SizedBoxView { width: Some(SCREEN_MAX), ..self@ }),
    {
        SizedBox { id: self.id, inner: self.inner, width: Some(SCREEN_MAX), height: self.height }
    }

    /// Expand the container on the y-axis.
    pub fn expand_height(self) -> (b: SizedBox<T>)
        ensures
            b@ == (SizedBoxView { height: Some(SCREEN_MAX), ..self@ }),
    {
        SizedBox { id: self.id, inner: self.inner, width: self.width, height: Some(SCREEN_MAX) }
    }

    /// The pod through which the widget holds its child, if it has one.
    pub fn child(&self) -> (pod: Option<&WidgetPod<T, BoxedWidget<T>>>)
        ensures
            match pod {
                Some(p) => self@.inner == Some(p@),
                None => self@.inner is None,
            },
    {
        match &self.inner {
            Some(p) => Some(p),
            None => None,
        }
    }

    fn child_constraints(&self, bc: &BoxConstraints) -> (child_bc: BoxConstraints)
        ensures
            child_bc == self@.child_constraints(*bc),
    {
        // if we don't have a width/height, we don't change that axis.
        // if we have a width/height, we clamp it on that axis.
        let w = axis_bounds(self.width, bc.min().width, bc.max().width);
        let h = axis_bounds(self.height, bc.min().height, bc.max().height);
        let child_bc = BoxConstraints::new(Size::new(w.0, h.0), Size::new(w.1, h.1));
        proof {
            child_bc.lemma_parts_determine();
        }
        child_bc
    }

    /// Lay out the widget. A box with a child lays the child out under the
    /// constraints with the imposed extents fixed, places it at the origin
    /// and reports the child's size. A box without a child reports the
    /// imposed extents, clamped into the constraints.
    pub fn layout(
        &mut self,
        table: &mut WidgetTable<T>,
        ctx: &mut LayoutCtx,
        bc: &BoxConstraints,
        data: &T,
        env: &Env,
    ) -> (size: Size)
        requires
            old(table).wf(),
            old(self)@.well_formed(),
            old(self)@.inner matches Some(pod) ==> (pod.inner.0 as int) < old(table)@.len(),
        ensures
            size == old(self)@.layout(old(table)@, old(ctx)@, *bc).size,
            final(self)@ == old(self)@.layout(old(table)@, old(ctx)@, *bc).widget,
            final(table)@ == old(self)@.layout(old(table)@, old(ctx)@, *bc).slots,
            final(ctx)@ == old(self)@.layout(old(table)@, old(ctx)@, *bc).ctx,
            final(table).wf(),
            final(table)@.len() == old(table)@.len(),
            same_kinds(final(table)@, old(table)@),
            final(self)@.id == old(self)@.id,
            final(self)@.well_formed(),
        decreases old(self)@.id.0, 2int, 0int,
    {
        let child_bc = self.child_constraints(bc);
        match &mut self.inner {
            Some(inner) => {
                let size = inner.layout(table, ctx, &child_bc, data, env);
                inner.set_layout_rect(
                    ctx,
                    data,
                    env,
                    Rect::from_origin_size(Point::origin(), size),
                );
                size
            },
            None => {
                let w: ScreenCoord = match self.width {
                    Some(w) => w,
                    None => 0,
                };
                let h: ScreenCoord = match self.height {
                    Some(h) => h,
                    None => 0,
                };
                bc.constrain(Size::new(w, h))
            },
        }
    }
}

impl<T> SizedBox<T> {
    /// Forward an event to the child, if there is one. Nothing changes.
    pub fn event(
        &mut self,
        table: &mut WidgetTable<T>,
        ctx: &mut EventCtx,
        event: &Event,
        data: &mut T,
        env: &Env,
    )
        requires
            old(table).wf(),
            old(self)@.well_formed(),
            old(self)@.inner matches Some(pod) ==> (pod.inner.0 as int) < old(table)@.len(),
        ensures
            final(self)@ == old(self)@,
            final(table)@ == old(table)@,
            *final(ctx) == *old(ctx),
            *final(data) == *old(data),
        decreases old(self)@.id.0, 2int, 0int,
    {
        match &mut self.inner {
            Some(inner) => {
                inner.event(table, ctx, event, data, env);
            },
            None => {},
        }
    }

    /// Forward a lifecycle notification to the child, if there is one. Nothing changes.
    pub fn lifecycle(
        &mut self,
        table: &mut WidgetTable<T>,
        ctx: &mut LifeCycleCtx,
        event: &LifeCycle,
        data: &T,
        env: &Env,
    )
        requires
            old(table).wf(),
            old(self)@.well_formed(),
            old(self)@.inner matches Some(pod) ==> (pod.inner.0 as int) < old(table)@.len(),
        ensures
            final(self)@ == old(self)@,
            final(table)@ == old(table)@,
            final(ctx)@ == old(ctx)@,
        decreases old(self)@.id.0, 2int, 0int,
    {
        match &mut self.inner {
            Some(inner) => {
                inner.lifecycle(table, ctx, event, data, env);
            },
            None => {},
        }
    }

    /// Forward a data update to the child, if there is one. Nothing changes.
    pub fn update(
        &mut self,
        table: &mut WidgetTable<T>,
        ctx: &mut UpdateCtx,
        old_data: &T,
        data: &T,
        env: &Env,
    )
        requires
            old(table).wf(),
            old(self)@.well_formed(),
            old(self)@.inner matches Some(pod) ==> (pod.inner.0 as int) < old(table)@.len(),
        ensures
            final(self)@ == old(self)@,
            final(table)@ == old(table)@,
            final(ctx)@ == old(ctx)@,
        decreases old(self)@.id.0, 2int, 0int,
    {
        match &mut self.inner {
            Some(inner) => {
                inner.update(table, ctx, data, env);
            },
            None => {},
        }
    }
}

impl SizedBoxView {
    /// What painting the widget records: what its child records, if it has one.
    pub open spec fn painted(self, slots: Seq<WidgetView>, region: Rect, offset: Vec2) -> Seq<
        PaintOp,
    >
        decreases self.id.0, 2int, 0int,
    {
        match self.inner {
            Some(pod) => if pod.inner.0 < self.id.0 {
                pod.painted(slots, region, offset)
            } else {
                Seq::<PaintOp>::empty()
            },
            None => Seq::<PaintOp>::empty(),
        }
    }
}

impl<T> SizedBox<T> {
    /// Paint the widget: the child paints, if there is one; the box itself
    /// draws nothing.
    pub fn paint(
        &mut self,
        table: &mut WidgetTable<T>,
        ctx: &mut PaintCtx,
        data: &T,
        env: &Env,
    )
        requires
            old(table).wf(),
            old(self)@.well_formed(),
            old(self)@.inner matches Some(pod) ==> (pod.inner.0 as int) < old(table)@.len(),
            old(ctx)@.depth + old(self)@.id.0 <= u32::MAX,
        ensures
            final(self)@ == old(self)@,
            final(table)@ == old(table)@,
            final(ctx)@ == (PaintCtxView {
                render: old(ctx)@.render.with_ops(
                    old(self)@.painted(old(table)@, old(ctx)@.region, old(ctx)@.render.offset),
                ),
                ..old(ctx)@
            }),
        decreases old(self)@.id.0, 2int, 0int,
    {
        match &mut self.inner {
            Some(inner) => {
                inner.paint(table, ctx, data, env);
            },
            None => {
                assert(ctx@.render.ops + Seq::<PaintOp>::empty() =~= ctx@.render.ops);
            },
        }
    }
}

impl<T> Widget<T> for SizedBox<T> {
    open spec fn spec_id(&self) -> Option<WidgetId> {
        Some(self@.id)
    }

    open spec fn spec_to_type(self) -> WidgetView {
        WidgetView::SizedBox(self@)
    }

    fn id(&self) -> (id: Option<WidgetId>) {
        Some(self.id)
    }

    open spec fn spec_kind_name(&self) -> Seq<char> {
        "SizedBox"@
    }

    fn kind_name(&self) -> (name: &'static str) {
        "SizedBox"
    }

    fn to_type(self) -> (w: WidgetType<T>) {
        WidgetType::SizedBox(self)
    }

    proof fn lemma_id_of_type(&self) {
    }
}

} // verus!
