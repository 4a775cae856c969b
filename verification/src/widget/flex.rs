//! A widget that arranges its children in a one-dimensional array.

use vstd::prelude::*;
use crate::box_constraints::BoxConstraints;
use crate::contexts::{EventCtx, LayoutCtx, LayoutCtxView, LayoutWarning, LifeCycleCtx, UpdateCtx};
use crate::env::Env;
use crate::event::{Event, LifeCycle};
use crate::geometry::{max, Point, Rect, SCREEN_MAX, ScreenCoord, Size, Vec2};
use crate::id::{Counter, WidgetId};
use crate::paint::{PaintCtx, PaintCtxView, PaintOp};
use crate::pod::{Laid, PodView, WidgetPod};
use crate::shares::{lemma_parts_add_up, parts_sum, Shares, SUM_LIMIT, weight_sum};
use crate::widget::Widget;
use crate::widget::boxed_widget::{BoxedWidget, same_kinds, WidgetTable, WidgetType, WidgetView};

verus! {

/// An axis in visual space. Most often used by widgets to describe
/// the direction in which they grow as their number of children increases.
#[derive(Clone, Copy, Debug, PartialEq, Eq, Structural)]
pub enum Axis {
    /// The x axis.
    Horizontal,
    /// The y axis.
    Vertical,
}

impl Axis {
    /// The extent of `size` along this axis.
    pub open spec fn spec_major(self, size: Size) -> ScreenCoord {
        match self {
            Axis::Horizontal => size.width,
            Axis::Vertical => size.height,
        }
    }

    /// The extent of `size` along this axis.
    #[verifier::when_used_as_spec(spec_major)]
    pub fn major(self, size: Size) -> (m: ScreenCoord)
        ensures
            m == self.spec_major(size),
    {
        match self {
            Axis::Horizontal => size.width,
            Axis::Vertical => size.height,
        }
    }

    /// The extent of `size` across this axis.
    pub open spec fn spec_minor(self, size: Size) -> ScreenCoord {
        match self {
            Axis::Horizontal => size.height,
            Axis::Vertical => size.width,
        }
    }

    /// The extent of `size` across this axis.
    #[verifier::when_used_as_spec(spec_minor)]
    pub fn minor(self, size: Size) -> (m: ScreenCoord)
        ensures
            m == self.spec_minor(size),
    {
        match self {
            Axis::Horizontal => size.height,
            Axis::Vertical => size.width,
        }
    }

    /// The size with the given extents along and across this axis.
    pub open spec fn spec_pack(self, major: ScreenCoord, minor: ScreenCoord) -> Size {
        match self {
            Axis::Horizontal => Size { width: major, height: minor },
            Axis::Vertical => Size { width: minor, height: major },
        }
    }

    /// Arrange the major and minor measurements with respect to this axis
    /// such that they form a size.
    #[verifier::when_used_as_spec(spec_pack)]
    pub fn pack(self, major: ScreenCoord, minor: ScreenCoord) -> (s: Size)
        ensures
            s == self.spec_pack(major, minor),
    {
        match self {
            Axis::Horizontal => Size { width: major, height: minor },
            Axis::Vertical => Size { width: minor, height: major },
        }
    }

    /// Where `r` starts along this axis.
    pub open spec fn major_start(self, r: Rect) -> ScreenCoord {
        match self {
            Axis::Horizontal => r.x0,
            Axis::Vertical => r.y0,
        }
    }

    /// Where `r` ends along this axis.
    pub open spec fn major_end(self, r: Rect) -> ScreenCoord {
        match self {
            Axis::Horizontal => r.x1,
            Axis::Vertical => r.y1,
        }
    }

    /// The constraints `bc` with the bounds along this axis replaced.
    pub open spec fn spec_constraints(
        self,
        bc: BoxConstraints,
        min_major: ScreenCoord,
        major: ScreenCoord,
    ) -> BoxConstraints {
        match self {
            Axis::Horizontal => BoxConstraints::from_parts(
                Size { width: min_major, height: bc.spec_min().height },
                Size { width: major, height: bc.spec_max().height },
            ),
            Axis::Vertical => BoxConstraints::from_parts(
                Size { width: bc.spec_min().width, height: min_major },
                Size { width: bc.spec_max().width, height: major },
            ),
        }
    }

    /// Generate constraints with new values on the major axis.
    pub fn constraints(self, bc: &BoxConstraints, min_major: ScreenCoord, major: ScreenCoord) -> (r:
        BoxConstraints)
        ensures
            r == self.spec_constraints(*bc, min_major, major),
    {
        let r = match self {
            Axis::Horizontal => BoxConstraints::new(
                Size::new(min_major, bc.min().height),
                Size::new(major, bc.max().height),
            ),
            Axis::Vertical => BoxConstraints::new(
                Size::new(bc.min().width, min_major),
                Size::new(bc.max().width, major),
            ),
        };
        proof {
            r.lemma_parts_determine();
        }
        r
    }
}

/// The alignment of the widgets on the container's cross (or minor) axis.
///
/// If a widget is smaller than the container on the minor axis, this
/// determines where it is positioned.
#[derive(Clone, Copy, Debug, PartialEq, Eq, Structural)]
pub enum CrossAxisAlignment {
    /// Top or leading.
    Start,
    /// Widgets are centered in the container.
    Center,
    /// Bottom or trailing.
    End,
}

impl CrossAxisAlignment {
    /// The offset of a widget that leaves `val` of room across the axis.
    pub open spec fn spec_align(self, val: ScreenCoord) -> ScreenCoord {
        match self {
            CrossAxisAlignment::Start => 0,
            CrossAxisAlignment::Center => ((val + 1) / 2) as ScreenCoord,
            CrossAxisAlignment::End => val,
        }
    }

    /// Given the difference between the size of the container and the size
    /// of the child (on their minor axis) return the necessary offset for
    /// this alignment. Centering rounds half a unit up.
    #[verifier::when_used_as_spec(spec_align)]
    pub fn align(self, val: ScreenCoord) -> (offset: ScreenCoord)
        ensures
            offset == self.spec_align(val),
    {
        match self {
            CrossAxisAlignment::Start => 0,
            CrossAxisAlignment::Center => {
                let half: u16 = (val as u16 + 1) / 2;
                half as ScreenCoord
            },
            CrossAxisAlignment::End => val,
        }
    }
}

/// Arrangement of children on the main axis.
///
/// If there is surplus space on the main axis after laying out children,
/// this enum represents how children are laid out in this space.
#[derive(Clone, Copy, Debug, PartialEq, Eq, Structural)]
pub enum MainAxisAlignment {
    /// Top or leading.
    Start,
    /// Children are centered, without padding.
    Center,
    /// Bottom or trailing.
    End,
    /// Extra space is divided evenly between each child.
    SpaceBetween,
    /// Extra space is divided evenly between each child, as well as at the ends.
    SpaceEvenly,
    /// Space between each child, with less at the start and end.
    SpaceAround,
}

impl MainAxisAlignment {
    /// The weight of the gap at `index` among `n` children. Gap 0 lies
    /// before the first child, gap `n` after the last.
    pub open spec fn spec_gap_weight(self, index: usize, n: usize) -> u8 {
        let is_end = index == 0 || index == n;
        match self {
            MainAxisAlignment::Start => if index == n {
                1
            } else {
                0
            },
            MainAxisAlignment::End => if index == 0 {
                1
            } else {
                0
            },
            MainAxisAlignment::Center => if is_end {
                1
            } else {
                0
            },
            MainAxisAlignment::SpaceBetween => if is_end {
                0
            } else {
                1
            },
            MainAxisAlignment::SpaceEvenly => 1,
            MainAxisAlignment::SpaceAround => if is_end {
                1
            } else {
                2
            },
        }
    }

    /// The weight of the gap at `index` among `n` children.
    #[verifier::when_used_as_spec(spec_gap_weight)]
    pub fn gap_weight(self, index: usize, n: usize) -> (w: u8)
        ensures
            w == self.spec_gap_weight(index, n),
    {
        let is_end = index == 0 || index == n;
        match self {
            MainAxisAlignment::Start => if index == n {
                1
            } else {
                0
            },
            MainAxisAlignment::End => if index == 0 {
                1
            } else {
                0
            },
            MainAxisAlignment::Center => if is_end {
                1
            } else {
                0
            },
            MainAxisAlignment::SpaceBetween => if is_end {
                0
            } else {
                1
            },
            MainAxisAlignment::SpaceEvenly => 1,
            MainAxisAlignment::SpaceAround => if is_end {
                1
            } else {
                2
            },
        }
    }

    /// The sum of the weights of the `n + 1` gaps around `n` children.
    /// Without children there is no gap to fill.
    pub open spec fn spec_gap_sum(self, n: usize) -> u128 {
        if n == 0 {
            0
        } else {
            match self {
                MainAxisAlignment::Start => 1,
                MainAxisAlignment::End => 1,
                MainAxisAlignment::Center => 2,
                MainAxisAlignment::SpaceBetween => (n - 1) as u128,
                MainAxisAlignment::SpaceEvenly => (n + 1) as u128,
                MainAxisAlignment::SpaceAround => (2 * n) as u128,
            }
        }
    }

    /// The sum of the weights of the `n + 1` gaps around `n` children.
    #[verifier::when_used_as_spec(spec_gap_sum)]
    pub fn gap_sum(self, n: usize) -> (s: u128)
        ensures
            s == self.spec_gap_sum(n),
            s <= SUM_LIMIT,
    {
        if n == 0 {
            0
        } else {
            match self {
                MainAxisAlignment::Start => 1,
                MainAxisAlignment::End => 1,
                MainAxisAlignment::Center => 2,
                MainAxisAlignment::SpaceBetween => (n - 1) as u128,
                MainAxisAlignment::SpaceEvenly => n as u128 + 1,
                MainAxisAlignment::SpaceAround => 2 * (n as u128),
            }
        }
    }
}

/// Optional parameters for an item in a [`Flex`] container (row or column).
#[derive(Clone, Copy, Debug, PartialEq, Eq, Structural)]
pub struct FlexParams {
    /// The weight of the child; a child of weight zero is not flexible.
    pub flex: u8,
    /// The alignment across the axis, if it differs from the container's.
    pub alignment: Option<CrossAxisAlignment>,
}

impl FlexParams {
    /// Create custom `FlexParams` with a specific `flex` weight and an
    /// optional [`CrossAxisAlignment`].
    pub fn new(flex: u8, alignment: Option<CrossAxisAlignment>) -> (p: FlexParams)
        ensures
            p == (FlexParams { flex, alignment }),
    {
        FlexParams { flex, alignment }
    }
}

/// A child of a [`Flex`] with its parameters.
pub struct ChildWidget<T> {
    widget: WidgetPod<T, BoxedWidget<T>>,
    params: FlexParams,
}

/// A child of a [`Flex`], as plain values.
pub struct FlexChildView {
    /// The pod of the child.
    pub pod: PodView,
    /// The parameters of the child.
    pub params: FlexParams,
}

impl<T> ChildWidget<T> {
    /// The child as plain values.
    pub closed spec fn view(&self) -> FlexChildView {
        FlexChildView { pod: self.widget@, params: self.params }
    }

    /// The pod of the child.
    pub fn pod(&self) -> (pod: &WidgetPod<T, BoxedWidget<T>>)
        ensures
            pod@ == self@.pod,
    {
        &self.widget
    }

    /// The parameters of the child.
    pub fn params(&self) -> (p: FlexParams)
        ensures
            p == self@.params,
    {
        self.params
    }
}

/// A container with either horizontal or vertical layout.
///
/// Children that are not flexible are measured first, at their natural
/// size. The room that they leave on the main axis is divided among the
/// flexible children by weight. At last all children are placed along the
/// main axis, with the spare room spread as the main-axis alignment says,
/// and across it as the cross-axis alignment says.
pub struct Flex<T> {
    id: WidgetId,
    direction: Axis,
    cross_alignment: CrossAxisAlignment,
    main_alignment: MainAxisAlignment,
    fill_major_axis: bool,
    children: Vec<ChildWidget<T>>,
}

/// A flex container, as plain values.
pub struct FlexView {
    /// The identifier of the widget.
    pub id: WidgetId,
    /// The main axis.
    pub direction: Axis,
    /// The alignment of the children across the main axis.
    pub cross_alignment: CrossAxisAlignment,
    /// The arrangement of the children along the main axis.
    pub main_alignment: MainAxisAlignment,
    /// Whether the container takes all the room on the main axis.
    pub fill_major_axis: bool,
    /// The children, in the order in which they are laid out.
    pub children: Seq<FlexChildView>,
}

/// The state of a measuring pass over the children of a flex container.
pub struct FlexPass {
    /// The children, with the rects of those that were measured.
    pub children: Seq<FlexChildView>,
    /// The widget table.
    pub slots: Seq<WidgetView>,
    /// The layout context.
    pub ctx: LayoutCtxView,
    /// The extents along the main axis of the children measured in this pass, added up.
    pub major: ScreenCoord,
    /// The largest extent across the main axis seen so far.
    pub minor: ScreenCoord,
    /// The division of the free room among the flexible children.
    pub shares: Shares,
}

/// The state of the placing pass over the children of a flex container.
pub struct FlexPlaced {
    /// The children, with the rects of those that were placed.
    pub children: Seq<FlexChildView>,
    /// The position along the main axis behind what was placed so far.
    pub major: ScreenCoord,
    /// The union of the paint rects of the children placed so far.
    pub paint_rect: Rect,
    /// The division of the spare room among the gaps.
    pub spacing: Shares,
}

/// The sum of the weights of the children from index `from` on.
pub open spec fn flex_sum(children: Seq<FlexChildView>, from: int) -> int
    decreases children.len() - from,
{
    if from < 0 || from >= children.len() {
        0
    } else {
        children[from].params.flex + flex_sum(children, from + 1)
    }
}

impl FlexView {
    /// Whether every child was made before the widget.
    pub open spec fn well_formed(self) -> bool {
        forall|k: int|
            0 <= k < self.children.len() ==> (#[trigger] self.children[k]).pod.inner.0 < self.id.0
    }

    /// The container without its children: what the passes over the
    /// children take from the container itself.
    pub open spec fn frame(self) -> FlexView {
        FlexView { children: Seq::<FlexChildView>::empty(), ..self }
    }

    /// One measuring pass from child `i` on. The pass for the children
    /// that are not flexible measures each of them without a bound on the
    /// main axis; the pass for the flexible children gives each its part of
    /// the free room as the bound. A measured child gets a rect of its size
    /// at the origin.
    pub open spec fn measure(
        self,
        st: FlexPass,
        loose: BoxConstraints,
        flexible: bool,
        i: int,
    ) -> FlexPass
        decreases self.id.0, 1int, st.children.len() - i,
    {
        if i < 0 || i >= st.children.len() {
            st
        } else {
            let c = st.children[i];
            if (c.params.flex != 0) == flexible && c.pod.inner.0 < self.id.0 {
                let bound = if flexible {
                    st.shares.share(c.params.flex)
                } else {
                    SCREEN_MAX
                };
                let shares = if flexible {
                    st.shares.after(c.params.flex)
                } else {
                    st.shares
                };
                let r = c.pod.layout(
                    st.slots,
                    st.ctx,
                    self.direction.spec_constraints(loose, 0, bound),
                );
                let pod = r.widget.with_layout_rect(
                    Rect::spec_from_origin_size(Point { x: 0, y: 0 }, r.size),
                );
                self.measure(
                    FlexPass {
                        children: st.children.update(i, FlexChildView { pod, params: c.params }),
                        slots: r.slots,
                        ctx: r.ctx,
                        major: st.major.saturating_add(self.direction.spec_major(r.size)),
                        minor: crate::geometry::spec_max(
                            st.minor,
                            self.direction.spec_minor(r.size),
                        ),
                        shares,
                    },
                    loose,
                    flexible,
                    i + 1,
                )
            } else {
                self.measure(st, loose, flexible, i + 1)
            }
        }
    }

    /// Where child `c` goes when the position along the main axis is
    /// `major` and the container is `minor` across.
    pub open spec fn placed_rect(
        self,
        c: FlexChildView,
        major: ScreenCoord,
        minor: ScreenCoord,
    ) -> Rect {
        let rect = c.pod.state.layout_rect;
        let extra_minor = minor.saturating_sub(self.direction.spec_minor(rect.spec_size()));
        let alignment = match c.params.alignment {
            Some(a) => a,
            None => self.cross_alignment,
        };
        let pos = self.direction.spec_pack(major, alignment.spec_align(extra_minor));
        Rect::spec_from_origin_size(Point { x: pos.width, y: pos.height }, rect.spec_size())
    }

    /// The placing pass from child `i` on: each child goes to the current
    /// position, and the position moves on by the child's extent and by
    /// the gap behind it.
    pub open spec fn place(self, st: FlexPlaced, minor: ScreenCoord, i: int) -> FlexPlaced
        decreases st.children.len() - i,
    {
        if i < 0 || i >= st.children.len() {
            st
        } else {
            let c = st.children[i];
            let rect = self.placed_rect(c, st.major, minor);
            let pod = c.pod.with_layout_rect(rect);
            let weight = self.main_alignment.spec_gap_weight(
                (i + 1) as usize,
                st.children.len() as usize,
            );
            self.place(
                FlexPlaced {
                    children: st.children.update(i, FlexChildView { pod, params: c.params }),
                    major: st.major.saturating_add(
                        self.direction.spec_major(c.pod.state.layout_rect.spec_size()),
                    ).saturating_add(st.spacing.share(weight)),
                    paint_rect: st.paint_rect.spec_union(pod.state.paint_rect()),
                    spacing: st.spacing.after(weight),
                },
                minor,
                i + 1,
            )
        }
    }

    /// The room along the main axis that is left for the gaps.
    pub open spec fn extra(
        self,
        bc: BoxConstraints,
        remaining: ScreenCoord,
        major_non_flex: ScreenCoord,
        major_flex: ScreenCoord,
    ) -> ScreenCoord {
        if self.fill_major_axis {
            remaining.saturating_sub(major_flex)
        } else {
            self.direction.spec_major(bc.spec_min()).saturating_sub(
                major_non_flex.saturating_add(major_flex),
            )
        }
    }

    /// The size that the container reports when its children end at
    /// `major` along the main axis and the largest of them is `minor` across.
    pub open spec fn own_size(
        self,
        bc: BoxConstraints,
        major: ScreenCoord,
        minor: ScreenCoord,
    ) -> Size {
        let wanted = self.direction.spec_pack(major, minor);
        if !self.fill_major_axis {
            self.direction.spec_constraints(
                bc,
                0,
                self.direction.spec_major(bc.spec_max()),
            ).spec_constrain(wanted)
        } else {
            bc.spec_constrain(wanted)
        }
    }

    /// The layout of the container and, through their pods, of its children.
    pub open spec fn layout(
        self,
        slots: Seq<WidgetView>,
        ctx: LayoutCtxView,
        bc: BoxConstraints,
    ) -> Laid<FlexView>
        decreases self.id.0, 2int, 0int,
    {
        if self.well_formed() {
            let loose = bc.spec_loosen();
            let fixed = self.frame().measure(
                FlexPass {
                    children: self.children,
                    slots,
                    ctx,
                    major: 0,
                    minor: self.direction.spec_minor(bc.spec_min()),
                    shares: Shares::spec_start(0, 0),
                },
                loose,
                false,
                0,
            );
            let total_major = self.direction.spec_major(bc.spec_max());
            let remaining = total_major.saturating_sub(fixed.major);
            let weights = flex_sum(self.children, 0);
            let flexed = self.frame().measure(
                FlexPass {
                    major: 0,
                    shares: Shares::spec_start(remaining, weights as u128),
                    ..fixed
                },
                loose,
                true,
                0,
            );
            let n = self.children.len() as usize;
            let spacing = Shares::spec_start(
                self.extra(bc, remaining, fixed.major, flexed.major),
                self.main_alignment.spec_gap_sum(n),
            );
            let first = self.main_alignment.spec_gap_weight(0, n);
            let placed = self.frame().place(
                FlexPlaced {
                    children: flexed.children,
                    major: spacing.share(first),
                    paint_rect: Rect::spec_zero(),
                    spacing: spacing.after(first),
                },
                flexed.minor,
                0,
            );
            let major = if weights > 0 {
                total_major
            } else {
                placed.major
            };
            let warned = if weights > 0 && total_major == SCREEN_MAX {
                flexed.ctx.with_warning(LayoutWarning::UnboundedFlex(self.id))
            } else {
                flexed.ctx
            };
            let my_size = self.own_size(bc, major, flexed.minor);
            Laid {
                size: my_size,
                widget: FlexView { children: placed.children, ..self },
                slots: flexed.slots,
                ctx: warned.with_paint_insets(
                    placed.paint_rect.spec_insets_from(
                        Rect::spec_from_origin_size(Point { x: 0, y: 0 }, my_size),
                    ),
                ),
            }
        } else {
            Laid { size: Size::spec_zero(), widget: self, slots, ctx }
        }
    }
}

impl<T> Flex<T> {
    /// The widget as plain values.
    pub closed spec fn view(&self) -> FlexView {
        FlexView {
            id: self.id,
            direction: self.direction,
            cross_alignment: self.cross_alignment,
            main_alignment: self.main_alignment,
            fill_major_axis: self.fill_major_axis,
            children: self.children@.map_values(|c: ChildWidget<T>| c@),
        }
    }

    /// Create a new container along the given axis, without children. The
    /// children are aligned to the start of both axes.
    pub fn for_axis(counter: &mut Counter, axis: Axis) -> (flex: Flex<T>)
        requires
            !old(counter).spec_is_exhausted(),
        ensures
            flex@ == (FlexView {
                id: WidgetId(old(counter)@),
                direction: axis,
                cross_alignment: CrossAxisAlignment::Start,
                main_alignment: MainAxisAlignment::Start,
                fill_major_axis: false,
                children: Seq::<FlexChildView>::empty(),
            }),
            flex@.well_formed(),
            final(counter)@ == old(counter)@ + 1,
    {
        let flex = Flex {
            id: WidgetId::next(counter),
            direction: axis,
            cross_alignment: CrossAxisAlignment::Start,
            main_alignment: MainAxisAlignment::Start,
            fill_major_axis: false,
            children: Vec::new(),
        };
        assert(flex@.children =~= Seq::<FlexChildView>::empty());
        flex
    }

    /// Create a new horizontal stack.
    ///
    /// The child widgets are laid out horizontally, from left to right.
    pub fn row(counter: &mut Counter) -> (flex: Flex<T>)
        requires
            !old(counter).spec_is_exhausted(),
        ensures
            flex@ == (FlexView {
                id: WidgetId(old(counter)@),
                direction: Axis::Horizontal,
                cross_alignment: CrossAxisAlignment::Start,
                main_alignment: MainAxisAlignment::Start,
                fill_major_axis: false,
                children: Seq::<FlexChildView>::empty(),
            }),
            flex@.well_formed(),
            final(counter)@ == old(counter)@ + 1,
    {
        Flex::for_axis(counter, Axis::Horizontal)
    }

    /// Create a new vertical stack.
    ///
    /// The child widgets are laid out vertically, from top to bottom.
    pub fn column(counter: &mut Counter) -> (flex: Flex<T>)
        requires
            !old(counter).spec_is_exhausted(),
        ensures
            flex@ == (FlexView {
                id: WidgetId(old(counter)@),
                direction: Axis::Vertical,
                cross_alignment: CrossAxisAlignment::Start,
                main_alignment: MainAxisAlignment::Start,
                fill_major_axis: false,
                children: Seq::<FlexChildView>::empty(),
            }),
            flex@.well_formed(),
            final(counter)@ == old(counter)@ + 1,
    {
        Flex::for_axis(counter, Axis::Vertical)
    }

    /// Builder-style method for specifying the children's [`CrossAxisAlignment`].
    pub fn cross_axis_alignment(self, alignment: CrossAxisAlignment) -> (flex: Flex<T>)
        ensures
            flex@ == (FlexView { cross_alignment: alignment, ..self@ }),
    {
        Flex {
            id: self.id,
            direction: self.direction,
            cross_alignment: alignment,
            main_alignment: self.main_alignment,
            fill_major_axis: self.fill_major_axis,
            children: self.children,
        }
    }

    /// Builder-style method for specifying the children's [`MainAxisAlignment`].
    pub fn main_axis_alignment(self, alignment: MainAxisAlignment) -> (flex: Flex<T>)
        ensures
            flex@ == (FlexView { main_alignment: alignment, ..self@ }),
    {
        Flex {
            id: self.id,
            direction: self.direction,
            cross_alignment: self.cross_alignment,
            main_alignment: alignment,
            fill_major_axis: self.fill_major_axis,
            children: self.children,
        }
    }

    /// Builder-style method for setting whether the container must expand
    /// to fill the available space on its main axis.
    ///
    /// If any children have flex then this container will expand to fill
    /// all available space on its main axis; but if no children are flex,
    /// this flag determines whether or not the container should shrink to
    /// fit, or must expand to fill.
    pub fn must_fill_main_axis(self, fill: bool) -> (flex: Flex<T>)
        ensures
            flex@ == (FlexView { fill_major_axis: fill, ..self@ }),
    {
        Flex {
            id: self.id,
            direction: self.direction,
            cross_alignment: self.cross_alignment,
            main_alignment: self.main_alignment,
            fill_major_axis: fill,
            children: self.children,
        }
    }

    /// Builder-style variant of `add_child`: a child that is not flexible.
    pub fn with_child<W: Widget<T>>(self, table: &mut WidgetTable<T>, child: W) -> (flex: Flex<T>)
        requires
            old(table).wf(),
            old(table).accepts(child.spec_to_type()),
            self@.well_formed(),
            child.spec_to_type().id() matches Some(cid) && cid.0 < self@.id.0,
        ensures
            child.spec_to_type().id() matches Some(cid) && flex@ == (FlexView {
                children: self@.children.push(
                    FlexChildView {
                        pod: PodView::fresh(cid),
                        params: FlexParams { flex: 0, alignment: None },
                    },
                ),
                ..self@
            }) && final(table)@ == old(table)@.update(cid.0 as int, child.spec_to_type()),
            flex@.well_formed(),
            final(table).wf(),
    {
        let mut flex = self;
        flex.add_flex_child(table, child, FlexParams { flex: 0, alignment: None });
        flex
    }

    /// Builder-style method to add a flexible child to the container.
    pub fn with_flex_child<W: Widget<T>>(
        self,
        table: &mut WidgetTable<T>,
        child: W,
        params: FlexParams,
    ) -> (flex: Flex<T>)
        requires
            old(table).wf(),
            old(table).accepts(child.spec_to_type()),
            self@.well_formed(),
            child.spec_to_type().id() matches Some(cid) && cid.0 < self@.id.0,
        ensures
            child.spec_to_type().id() matches Some(cid) && flex@ == (FlexView {
                children: self@.children.push(FlexChildView { pod: PodView::fresh(cid), params }),
                ..self@
            }) && final(table)@ == old(table)@.update(cid.0 as int, child.spec_to_type()),
            flex@.well_formed(),
            final(table).wf(),
    {
        let mut flex = self;
        flex.add_flex_child(table, child, params);
        flex
    }

    /// Add a child that is not flexible.
    pub fn add_child<W: Widget<T>>(&mut self, table: &mut WidgetTable<T>, child: W)
        requires
            old(table).wf(),
            old(table).accepts(child.spec_to_type()),
            old(self)@.well_formed(),
            child.spec_to_type().id() matches Some(cid) && cid.0 < old(self)@.id.0,
        ensures
            child.spec_to_type().id() matches Some(cid) && final(self)@ == (FlexView {
                children: old(self)@.children.push(
                    FlexChildView {
                        pod: PodView::fresh(cid),
                        params: FlexParams { flex: 0, alignment: None },
                    },
                ),
                ..old(self)@
            }) && final(table)@ == old(table)@.update(cid.0 as int, child.spec_to_type()),
            final(self)@.well_formed(),
            final(table).wf(),
    {
        self.add_flex_child(table, child, FlexParams { flex: 0, alignment: None });
    }

    /// Add a child with the given parameters. The child moves into the table.
    ///
    /// The child must have been made before the container: its identifier
    /// is smaller than the container's.
    pub fn add_flex_child<W: Widget<T>>(
        &mut self,
        table: &mut WidgetTable<T>,
        child: W,
        params: FlexParams,
    )
        requires
            old(table).wf(),
            old(table).accepts(child.spec_to_type()),
            old(self)@.well_formed(),
            child.spec_to_type().id() matches Some(cid) && cid.0 < old(self)@.id.0,
        ensures
            child.spec_to_type().id() matches Some(cid) && final(self)@ == (FlexView {
                children: old(self)@.children.push(
                    FlexChildView { pod: PodView::fresh(cid), params },
                ),
                ..old(self)@
            }) && final(table)@ == old(table)@.update(cid.0 as int, child.spec_to_type()),
            final(self)@.well_formed(),
            final(table).wf(),
    {
        proof {
            child.lemma_id_of_type();
        }
        let pod = WidgetPod::new(child).boxed(table);
        proof {
            pod.lemma_view();
        }
        let entry = ChildWidget { widget: pod, params };
        self.children.push(entry);
        assert(self@.children =~= old(self)@.children.push(entry@));
    }

    /// The number of children.
    pub fn child_count(&self) -> (n: usize)
        ensures
            n == self@.children.len(),
    {
        self.children.len()
    }

    /// The `i`-th child.
    pub fn child(&self, i: usize) -> (c: &ChildWidget<T>)
        requires
            i < self@.children.len(),
        ensures
            c@ == self@.children[i as int],
    {
        &self.children[i]
    }

    /// The sum of the weights of all children.
    fn sum_of_weights(&self) -> (sum: u128)
        ensures
            sum == flex_sum(self@.children, 0),
            sum <= SUM_LIMIT,
    {
        let n: usize = self.children.len();
        let mut sum: u128 = 0;
        let mut i: usize = n;
        while i > 0
            invariant
                i <= n,
                n == self.children@.len(),
                n == self@.children.len(),
                sum == flex_sum(self@.children, i as int),
                sum <= 255 * (n - i),
            decreases i,
        {
            i = i - 1;
            sum = sum + self.children[i].params.flex as u128;
        }
        sum
    }

    /// One measuring pass over the children: see [`FlexView::measure`].
    fn measure(
        &mut self,
        table: &mut WidgetTable<T>,
        ctx: &mut LayoutCtx,
        loosened_bc: &BoxConstraints,
        data: &T,
        env: &Env,
        flexible: bool,
        minor: ScreenCoord,
        shares: Shares,
    ) -> (r: (ScreenCoord, ScreenCoord))
        requires
            old(table).wf(),
            old(self)@.well_formed(),
            old(self)@.id.0 < old(table)@.len(),
            shares.wf(),
        ensures
            ({
                let st = old(self)@.frame().measure(
                    FlexPass {
                        children: old(self)@.children,
                        slots: old(table)@,
                        ctx: old(ctx)@,
                        major: 0,
                        minor,
                        shares,
                    },
                    *loosened_bc,
                    flexible,
                    0,
                );
                &&& final(self)@ == (FlexView { children: st.children, ..old(self)@ })
                &&& final(table)@ == st.slots
                &&& final(ctx)@ == st.ctx
                &&& r.0 == st.major
                &&& r.1 == st.minor
            }),
            final(self)@.well_formed(),
            final(self)@.children.len() == old(self)@.children.len(),
            final(table).wf(),
            final(table)@.len() == old(table)@.len(),
            same_kinds(final(table)@, old(table)@),
        decreases old(self)@.id.0, 1int, old(self)@.children.len() + 1,
    {
        let ghost me = self@.frame();
        let ghost start = FlexPass {
            children: self@.children,
            slots: table@,
            ctx: ctx@,
            major: 0,
            minor,
            shares,
        };
        let n: usize = self.children.len();
        let mut major: ScreenCoord = 0;
        let mut minor: ScreenCoord = minor;
        let mut shares: Shares = shares;
        let mut i: usize = 0;
        while i < n
            invariant
                i <= n,
                n == self@.children.len(),
                n == self.children@.len(),
                me == old(self)@.frame(),
                self@ == (FlexView { children: self@.children, ..me }),
                self@.well_formed(),
                me.id.0 < table@.len(),
                table.wf(),
                table@.len() == old(table)@.len(),
                same_kinds(table@, old(table)@),
                shares.wf(),
                me.measure(
                    FlexPass {
                        children: self@.children,
                        slots: table@,
                        ctx: ctx@,
                        major,
                        minor,
                        shares,
                    },
                    *loosened_bc,
                    flexible,
                    i as int,
                ) == me.measure(start, *loosened_bc, flexible, 0),
            decreases n - i,
        {
            let ghost before = self@.children;
            assert(before[i as int] == self.children@[i as int]@);
            let weight: u8 = self.children[i].params.flex;
            if (weight != 0) == flexible {
                let bound: ScreenCoord = if flexible {
                    shares.next(weight)
                } else {
                    SCREEN_MAX
                };
                let child_bc = self.direction.constraints(loosened_bc, 0, bound);
                let direction = self.direction;
                let child = &mut self.children[i];
                let child_size = child.widget.layout(table, ctx, &child_bc, data, env);
                let rect = Rect::from_origin_size(Point::origin(), child_size);
                child.widget.set_layout_rect(ctx, data, env, rect);
                major = major.saturating_add(direction.major(child_size));
                minor = max(minor, direction.minor(child_size));
                assert(self@.children =~= before.update(i as int, self.children@[i as int]@));
            }
            i = i + 1;
        }
        (major, minor)
    }

    /// The placing pass over the children: see [`FlexView::place`].
    fn place(
        &mut self,
        ctx: &mut LayoutCtx,
        data: &T,
        env: &Env,
        minor: ScreenCoord,
        first: ScreenCoord,
        spacing: Shares,
    ) -> (r: (ScreenCoord, Rect))
        requires
            spacing.wf(),
        ensures
            ({
                let st = old(self)@.frame().place(
                    FlexPlaced {
                        children: old(self)@.children,
                        major: first,
                        paint_rect: Rect::spec_zero(),
                        spacing,
                    },
                    minor,
                    0,
                );
                &&& final(self)@ == (FlexView { children: st.children, ..old(self)@ })
                &&& r.0 == st.major
                &&& r.1 == st.paint_rect
            }),
            final(ctx)@ == old(ctx)@,
            old(self)@.well_formed() ==> final(self)@.well_formed(),
    {
        let ghost me = self@.frame();
        let ghost start = FlexPlaced {
            children: self@.children,
            major: first,
            paint_rect: Rect::spec_zero(),
            spacing,
        };
        let n: usize = self.children.len();
        let mut major: ScreenCoord = first;
        let mut spacing: Shares = spacing;
        let mut child_paint_rect = Rect::zero();
        let mut i: usize = 0;
        while i < n
            invariant
                i <= n,
                n == self@.children.len(),
                n == self.children@.len(),
                self@ == (FlexView { children: self@.children, ..me }),
                old(self)@.well_formed() ==> self@.well_formed(),
                me == old(self)@.frame(),
                ctx@ == old(ctx)@,
                spacing.wf(),
                me.place(
                    FlexPlaced {
                        children: self@.children,
                        major,
                        paint_rect: child_paint_rect,
                        spacing,
                    },
                    minor,
                    i as int,
                ) == me.place(start, minor, 0),
            decreases n - i,
        {
            let ghost before = self@.children;
            assert(before[i as int] == self.children@[i as int]@);
            let direction = self.direction;
            let cross_alignment = self.cross_alignment;
            let gap_weight: u8 = self.main_alignment.gap_weight(i + 1, n);
            let child = &mut self.children[i];
            proof {
                child.widget.lemma_view();
            }
            let rect = child.widget.layout_rect();
            let extra_minor: ScreenCoord = minor.saturating_sub(direction.minor(rect.size()));
            let alignment = match child.params.alignment {
                Some(a) => a,
                None => cross_alignment,
            };
            let align_minor: ScreenCoord = alignment.align(extra_minor);
            let packed = direction.pack(major, align_minor);
            let pos = Point::new(packed.width, packed.height);
            child.widget.set_layout_rect(ctx, data, env, rect.with_origin(pos));
            proof {
                child.widget.lemma_view();
            }
            child_paint_rect = child_paint_rect.union(child.widget.paint_rect());
            major = major.saturating_add(direction.major(rect.size()));
            major = major.saturating_add(spacing.next(gap_weight));
            assert(self@.children =~= before.update(i as int, self.children@[i as int]@));
            i = i + 1;
        }
        (major, child_paint_rect)
    }

    /// Lay out the container.
    ///
    /// The children that are not flexible are measured first. The room
    /// that they leave on the main axis is divided among the flexible
    /// children by weight, with the rounding carried from child to child.
    /// Then every child is placed: along the main axis as the main-axis
    /// alignment spreads the spare room, across it as the cross-axis
    /// alignment says.
    pub fn layout(
        &mut self,
        table: &mut WidgetTable<T>,
        ctx: &mut LayoutCtx,
        bc: &BoxConstraints,
        data: &T,
        env: &Env,
    ) -> (size: Size)
        requires
            old(table).wf(),
            old(self)@.well_formed(),
            old(self)@.id.0 < old(table)@.len(),
        ensures
            size == old(self)@.layout(old(table)@, old(ctx)@, *bc).size,
            final(self)@ == old(self)@.layout(old(table)@, old(ctx)@, *bc).widget,
            final(table)@ == old(self)@.layout(old(table)@, old(ctx)@, *bc).slots,
            final(ctx)@ == old(self)@.layout(old(table)@, old(ctx)@, *bc).ctx,
            final(table).wf(),
            final(table)@.len() == old(table)@.len(),
            same_kinds(final(table)@, old(table)@),
            final(self)@.id == old(self)@.id,
            final(self)@.well_formed(),
        decreases old(self)@.id.0, 2int, 0int,
    {
        // we loosen our constraints when passing to children.
        let loosened_bc = bc.loosen();
        let weights: u128 = self.sum_of_weights();

        // Measure non-flex children.
        let fixed = self.measure(
            table,
            ctx,
            &loosened_bc,
            data,
            env,
            false,
            self.direction.minor(bc.min()),
            Shares::start(0, 0),
        );
        let major_non_flex: ScreenCoord = fixed.0;

        let total_major: ScreenCoord = self.direction.major(bc.max());
        let remaining: ScreenCoord = total_major.saturating_sub(major_non_flex);

        // Measure flex children.
        let flexed = self.measure(
            table,
            ctx,
            &loosened_bc,
            data,
            env,
            true,
            fixed.1,
            Shares::start(remaining, weights),
        );
        let major_flex: ScreenCoord = flexed.0;
        let minor: ScreenCoord = flexed.1;

        // figure out if we have extra space on major axis, and if so how to use it
        let extra: ScreenCoord = if self.fill_major_axis {
            remaining.saturating_sub(major_flex)
        } else {
            // if we are *not* expected to fill our available space this usually
            // means we don't have any extra, unless dictated by our constraints.
            self.direction.major(bc.min()).saturating_sub(major_non_flex.saturating_add(major_flex))
        };

        // Finalize layout, assigning positions to each child.
        let n: usize = self.children.len();
        let mut spacing = Shares::start(extra, self.main_alignment.gap_sum(n));
        let first: ScreenCoord = spacing.next(self.main_alignment.gap_weight(0, n));
        let placed = self.place(ctx, data, env, minor, first, spacing);
        let mut major: ScreenCoord = placed.0;

        if weights > 0 && total_major == SCREEN_MAX {
            ctx.warn(LayoutWarning::UnboundedFlex(self.id));
        }
        if weights > 0 {
            major = total_major;
        }
        let wanted = self.direction.pack(major, minor);

        // if we don't have to fill the main axis, we loosen that axis before constraining
        let my_size = if !self.fill_major_axis {
            let max_major: ScreenCoord = self.direction.major(bc.max());
            self.direction.constraints(bc, 0, max_major).constrain(wanted)
        } else {
            bc.constrain(wanted)
        };

        let my_bounds = Rect::zero().with_size(my_size);
        let insets = placed.1 - my_bounds;
        ctx.set_paint_insets(insets);
        my_size
    }
}

impl<T> Flex<T> {
    /// Forward an event to each child in turn. Nothing changes.
    pub fn event(
        &mut self,
        table: &mut WidgetTable<T>,
        ctx: &mut EventCtx,
        event: &Event,
        data: &mut T,
        env: &Env,
    )
        requires
            old(table).wf(),
            old(self)@.well_formed(),
            old(self)@.id.0 < old(table)@.len(),
        ensures
            final(self)@ == old(self)@,
            final(table)@ == old(table)@,
            *final(ctx) == *old(ctx),
            *final(data) == *old(data),
        decreases old(self)@.id.0, 2int, 0int,
    {
        let n: usize = self.children.len();
        let mut i: usize = 0;
        while i < n
            invariant
                i <= n,
                n == self.children@.len(),
                self@ == old(self)@,
                self@.well_formed(),
                self@.id.0 < table@.len(),
                table.wf(),
                table@ == old(table)@,
                *ctx == *old(ctx),
                *data == *old(data),
            decreases n - i,
        {
            let ghost before = self@.children;
            assert(before[i as int] == self.children@[i as int]@);
            let child = &mut self.children[i];
            child.widget.event(table, ctx, event, data, env);
            assert(self@.children =~= before);
            i = i + 1;
        }
    }

    /// Forward a lifecycle notification to each child in turn. Nothing changes.
    pub fn lifecycle(
        &mut self,
        table: &mut WidgetTable<T>,
        ctx: &mut LifeCycleCtx,
        event: &LifeCycle,
        data: &T,
        env: &Env,
    )
        requires
            old(table).wf(),
            old(self)@.well_formed(),
            old(self)@.id.0 < old(table)@.len(),
        ensures
            final(self)@ == old(self)@,
            final(table)@ == old(table)@,
            final(ctx)@ == old(ctx)@,
        decreases old(self)@.id.0, 2int, 0int,
    {
        let n: usize = self.children.len();
        let mut i: usize = 0;
        while i < n
            invariant
                i <= n,
                n == self.children@.len(),
                self@ == old(self)@,
                self@.well_formed(),
                self@.id.0 < table@.len(),
                table.wf(),
                table@ == old(table)@,
                ctx@ == old(ctx)@,
            decreases n - i,
        {
            let ghost before = self@.children;
            assert(before[i as int] == self.children@[i as int]@);
            let child = &mut self.children[i];
            child.widget.lifecycle(table, ctx, event, data, env);
            assert(self@.children =~= before);
            i = i + 1;
        }
    }

    /// Forward a data update to each child in turn. Nothing changes.
    pub fn update(
        &mut self,
        table: &mut WidgetTable<T>,
        ctx: &mut UpdateCtx,
        old_data: &T,
        data: &T,
        env: &Env,
    )
        requires
            old(table).wf(),
            old(self)@.well_formed(),
            old(self)@.id.0 < old(table)@.len(),
        ensures
            final(self)@ == old(self)@,
            final(table)@ == old(table)@,
            final(ctx)@ == old(ctx)@,
        decreases old(self)@.id.0, 2int, 0int,
    {
        let n: usize = self.children.len();
        let mut i: usize = 0;
        while i < n
            invariant
                i <= n,
                n == self.children@.len(),
                self@ == old(self)@,
                self@.well_formed(),
                self@.id.0 < table@.len(),
                table.wf(),
                table@ == old(table)@,
                ctx@ == old(ctx)@,
            decreases n - i,
        {
            let ghost before = self@.children;
            assert(before[i as int] == self.children@[i as int]@);
            let child = &mut self.children[i];
            child.widget.update(table, ctx, data, env);
            assert(self@.children =~= before);
            i = i + 1;
        }
    }
}

impl FlexView {
    /// What painting the children from index `i` on records, one after another.
    pub open spec fn painted_from(
        self,
        children: Seq<FlexChildView>,
        slots: Seq<WidgetView>,
        region: Rect,
        offset: Vec2,
        i: int,
    ) -> Seq<PaintOp>
        decreases self.id.0, 1int, children.len() - i,
    {
        if i < 0 || i >= children.len() {
            Seq::<PaintOp>::empty()
        } else if children[i].pod.inner.0 < self.id.0 {
            children[i].pod.painted(slots, region, offset) + self.painted_from(
                children,
                slots,
                region,
                offset,
                i + 1,
            )
        } else {
            self.painted_from(children, slots, region, offset, i + 1)
        }
    }

    /// What painting the container records: what its children record, in order.
    pub open spec fn painted(self, slots: Seq<WidgetView>, region: Rect, offset: Vec2) -> Seq<
        PaintOp,
    >
        decreases self.id.0, 2int, 0int,
    {
        self.frame().painted_from(self.children, slots, region, offset, 0)
    }
}

impl<T> Flex<T> {
    /// Paint the container: the children paint in order; the container
    /// itself draws nothing.
    pub fn paint(
        &mut self,
        table: &mut WidgetTable<T>,
        ctx: &mut PaintCtx,
        data: &T,
        env: &Env,
    )
        requires
            old(table).wf(),
            old(self)@.well_formed(),
            old(self)@.id.0 < old(table)@.len(),
            old(ctx)@.depth + old(self)@.id.0 <= u32::MAX,
        ensures
            final(self)@ == old(self)@,
            final(table)@ == old(table)@,
            final(ctx)@ == (PaintCtxView {
                render: old(ctx)@.render.with_ops(
                    old(self)@.painted(old(table)@, old(ctx)@.region, old(ctx)@.render.offset),
                ),
                ..old(ctx)@
            }),
        decreases old(self)@.id.0, 2int, 0int,
    {
        let ghost me = self@.frame();
        let ghost all = self@.painted(table@, ctx@.region, ctx@.render.offset);
        let ghost done = Seq::<PaintOp>::empty();
        let n: usize = self.children.len();
        let mut i: usize = 0;
        assert(ctx@.render.ops + done =~= ctx@.render.ops);
        while i < n
            invariant
                i <= n,
                n == self.children@.len(),
                self@ == old(self)@,
                me == old(self)@.frame(),
                self@.well_formed(),
                self@.id.0 < table@.len(),
                table.wf(),
                table@ == old(table)@,
                old(ctx)@.depth + old(self)@.id.0 <= u32::MAX,
                ctx@ == (PaintCtxView { render: old(ctx)@.render.with_ops(done), ..old(ctx)@ }),
                all == done + me.painted_from(
                    self@.children,
                    table@,
                    old(ctx)@.region,
                    old(ctx)@.render.offset,
                    i as int,
                ),
            decreases n - i,
        {
            let ghost before = self@.children;
            assert(before[i as int] == self.children@[i as int]@);
            let ghost step = before[i as int].pod.painted(
                table@,
                old(ctx)@.region,
                old(ctx)@.render.offset,
            );
            let child = &mut self.children[i];
            child.widget.paint(table, ctx, data, env);
            assert(self@.children =~= before);
            proof {
                assert((old(ctx)@.render.ops + done) + step =~= old(ctx)@.render.ops + (done
                    + step));
                assert(done + (step + me.painted_from(
                    before,
                    table@,
                    old(ctx)@.region,
                    old(ctx)@.render.offset,
                    i as int + 1,
                )) =~= (done + step) + me.painted_from(
                    before,
                    table@,
                    old(ctx)@.region,
                    old(ctx)@.render.offset,
                    i as int + 1,
                ));
                done = done + step;
            }
            i = i + 1;
        }
        assert(done + Seq::<PaintOp>::empty() =~= done);
    }
}

/// The placing pass keeps the children before index `i` as they are, puts
/// every later child at or behind the current position, and puts the
/// children in order: each ends before the next starts.
pub proof fn lemma_place_in_order(f: FlexView, st: FlexPlaced, minor: ScreenCoord, i: int)
    requires
        0 <= i,
    ensures
        f.place(st, minor, i).children.len() == st.children.len(),
        forall|m: int|
            0 <= m < i && m < st.children.len() ==> #[trigger] f.place(st, minor, i).children[m]
                == st.children[m],
        forall|m: int|
            i <= m < st.children.len() ==> f.direction.major_start(
                (#[trigger] f.place(st, minor, i).children[m]).pod.state.layout_rect,
            ) >= st.major,
        forall|j: int, k: int|
            i <= j < k < st.children.len() ==> f.direction.major_end(
                (#[trigger] f.place(st, minor, i).children[j]).pod.state.layout_rect,
            ) <= f.direction.major_start(
                (#[trigger] f.place(st, minor, i).children[k]).pod.state.layout_rect,
            ),
    decreases st.children.len() - i,
{
    if i < st.children.len() {
        let c = st.children[i];
        let rect = f.placed_rect(c, st.major, minor);
        let pod = c.pod.with_layout_rect(rect);
        let weight = f.main_alignment.spec_gap_weight(
            (i + 1) as usize,
            st.children.len() as usize,
        );
        let st2 = FlexPlaced {
            children: st.children.update(i, FlexChildView { pod, params: c.params }),
            major: st.major.saturating_add(
                f.direction.spec_major(c.pod.state.layout_rect.spec_size()),
            ).saturating_add(st.spacing.share(weight)),
            paint_rect: st.paint_rect.spec_union(pod.state.paint_rect()),
            spacing: st.spacing.after(weight),
        };
        let p = f.place(st, minor, i);
        assert(p == f.place(st2, minor, i + 1));
        lemma_place_in_order(f, st2, minor, i + 1);
        assert(p.children[i] == st2.children[i]);
        assert(f.direction.major_start(rect) == st.major);
        assert(f.direction.major_end(rect) <= st2.major);
        assert forall|m: int| 0 <= m < i && m < st.children.len() implies #[trigger] p.children[m]
            == st.children[m] by {
            assert(p.children[m] == st2.children[m]);
        }
        assert forall|m: int| i <= m < st.children.len() implies f.direction.major_start(
            (#[trigger] p.children[m]).pod.state.layout_rect,
        ) >= st.major by {
            if m > i {
                assert(f.direction.major_start(p.children[m].pod.state.layout_rect) >= st2.major);
            }
        }
        assert forall|j: int, k: int| i <= j < k < st.children.len() implies f.direction.major_end(
            (#[trigger] p.children[j]).pod.state.layout_rect,
        ) <= f.direction.major_start((#[trigger] p.children[k]).pod.state.layout_rect) by {
            if j == i {
                assert(f.direction.major_start(p.children[k].pod.state.layout_rect) >= st2.major);
            }
        }
    }
}

/// A measuring pass keeps the number of children.
pub proof fn lemma_measure_keeps_count(
    f: FlexView,
    st: FlexPass,
    loose: BoxConstraints,
    flexible: bool,
    i: int,
)
    requires
        0 <= i,
    ensures
        f.measure(st, loose, flexible, i).children.len() == st.children.len(),
    decreases st.children.len() - i,
{
    if i < st.children.len() {
        let c = st.children[i];
        if (c.params.flex != 0) == flexible && c.pod.inner.0 < f.id.0 {
            let bound = if flexible {
                st.shares.share(c.params.flex)
            } else {
                SCREEN_MAX
            };
            let shares = if flexible {
                st.shares.after(c.params.flex)
            } else {
                st.shares
            };
            let r = c.pod.layout(st.slots, st.ctx, f.direction.spec_constraints(loose, 0, bound));
            let pod = r.widget.with_layout_rect(
                Rect::spec_from_origin_size(Point { x: 0, y: 0 }, r.size),
            );
            let st2 = FlexPass {
                children: st.children.update(i, FlexChildView { pod, params: c.params }),
                slots: r.slots,
                ctx: r.ctx,
                major: st.major.saturating_add(f.direction.spec_major(r.size)),
                minor: crate::geometry::spec_max(st.minor, f.direction.spec_minor(r.size)),
                shares,
            };
            assert(f.measure(st, loose, flexible, i) == f.measure(st2, loose, flexible, i + 1));
            lemma_measure_keeps_count(f, st2, loose, flexible, i + 1);
        } else {
            lemma_measure_keeps_count(f, st, loose, flexible, i + 1);
        }
    }
}

/// The children of a laid-out container stand in order along the main
/// axis: each child ends before the next one starts.
pub proof fn lemma_layout_places_children_in_order(
    f: FlexView,
    slots: Seq<WidgetView>,
    ctx: LayoutCtxView,
    bc: BoxConstraints,
    j: int,
    k: int,
)
    requires
        f.well_formed(),
        0 <= j < k < f.children.len(),
    ensures
        f.layout(slots, ctx, bc).widget.children.len() == f.children.len(),
        f.direction.major_end(f.layout(slots, ctx, bc).widget.children[j].pod.state.layout_rect)
            <= f.direction.major_start(
            f.layout(slots, ctx, bc).widget.children[k].pod.state.layout_rect,
        ),
{
    let loose = bc.spec_loosen();
    let start = FlexPass {
        children: f.children,
        slots,
        ctx,
        major: 0,
        minor: f.direction.spec_minor(bc.spec_min()),
        shares: Shares::spec_start(0, 0),
    };
    let fixed = f.frame().measure(start, loose, false, 0);
    lemma_measure_keeps_count(f.frame(), start, loose, false, 0);
    let total_major = f.direction.spec_major(bc.spec_max());
    let remaining = total_major.saturating_sub(fixed.major);
    let weights = flex_sum(f.children, 0);
    let again = FlexPass {
        major: 0,
        shares: Shares::spec_start(remaining, weights as u128),
        ..fixed
    };
    let flexed = f.frame().measure(again, loose, true, 0);
    lemma_measure_keeps_count(f.frame(), again, loose, true, 0);
    let n = f.children.len() as usize;
    let spacing = Shares::spec_start(
        f.extra(bc, remaining, fixed.major, flexed.major),
        f.main_alignment.spec_gap_sum(n),
    );
    let first = f.main_alignment.spec_gap_weight(0, n);
    let placing = FlexPlaced {
        children: flexed.children,
        major: spacing.share(first),
        paint_rect: Rect::spec_zero(),
        spacing: spacing.after(first),
    };
    lemma_place_in_order(f.frame(), placing, flexed.minor, 0);
    let placed = f.frame().place(placing, flexed.minor, 0);
    assert(f.layout(slots, ctx, bc).widget.children == placed.children);
    assert(f.frame().direction == f.direction);
}

/// The weights of the children, in order.
pub open spec fn child_weights(children: Seq<FlexChildView>) -> Seq<u8> {
    children.map_values(|c: FlexChildView| c.params.flex)
}

/// The weights of the children add up to the sum of weights that the
/// layout divides by.
pub proof fn lemma_child_weights_sum(children: Seq<FlexChildView>, from: int)
    ensures
        weight_sum(child_weights(children), from) == flex_sum(children, from),
    decreases children.len() - from,
{
    if 0 <= from < children.len() {
        lemma_child_weights_sum(children, from + 1);
    }
}

/// Weighted distribution among the children: the parts of the free room
/// that the children take in turn, each by its weight, add up to the free
/// room exactly, as long as one child is flexible.
pub proof fn lemma_flex_parts_add_up(children: Seq<FlexChildView>, remaining: ScreenCoord)
    requires
        0 < flex_sum(children, 0) <= SUM_LIMIT,
    ensures
        parts_sum(
            Shares::spec_start(remaining, flex_sum(children, 0) as u128),
            child_weights(children),
            0,
        ) == remaining,
{
    lemma_child_weights_sum(children, 0);
    lemma_parts_add_up(remaining, child_weights(children));
}

impl<T> Widget<T> for Flex<T> {
    open spec fn spec_id(&self) -> Option<WidgetId> {
        Some(self@.id)
    }

    open spec fn spec_to_type(self) -> WidgetView {
        WidgetView::Flex(self@)
    }

    fn id(&self) -> (id: Option<WidgetId>) {
        Some(self.id)
    }

    open spec fn spec_kind_name(&self) -> Seq<char> {
        "Flex"@
    }

    fn kind_name(&self) -> (name: &'static str) {
        "Flex"
    }

    fn to_type(self) -> (w: WidgetType<T>) {
        WidgetType::Flex(self)
    }

    proof fn lemma_id_of_type(&self) {
    }
}

} // verus!
