//! The closed set of widget kinds, the fixed-capacity table that holds the
//! widgets of a tree, and the boxed widget that stands for a table entry.
//!
//! A `BoxedWidget` holds only an identifier. Every pass looks the widget up
//! in the table by that identifier, takes it out of its slot, runs the pass
//! of its kind and writes the widget back.

use vstd::prelude::*;
use crate::box_constraints::BoxConstraints;
use crate::contexts::{
    EventCtx, LayoutCtx, LayoutCtxView, LifeCycleCtx, UpdateCtx, WidgetStateView,
};
use crate::env::Env;
use crate::event::{Event, LifeCycle};
use crate::geometry::{Rect, Size, Vec2};
use crate::id::WidgetId;
use crate::paint::{PaintCtx, PaintCtxView, PaintOp};
use crate::pod::Laid;
use crate::widget::Widget;
use crate::widget::align::{Align, AlignView};
use crate::widget::flex::{Flex, FlexView};
use crate::widget::label::{Label, LabelView};
use crate::widget::padding::{Padding, PaddingView};
use crate::widget::sized_box::{SizedBox, SizedBoxView};

verus! {

/// The number of widgets that a table holds unless it is made with another capacity.
pub const MAX_WIDGETS: usize = 10;

/// Enum to store each kind of widget.
pub enum WidgetType<T> {
    /// The empty slot.
    Empty,
    /// A widget that aligns its child.
    Align(Align<T>),
    /// A row or a column of widgets.
    Flex(Flex<T>),
    /// A text label.
    Label(Label<T>),
    /// A widget that pads its child.
    Padding(Padding<T>),
    /// A widget with a fixed width or height.
    SizedBox(SizedBox<T>),
}

/// A widget of one of the kinds, as plain values.
pub enum WidgetView {
    /// The empty slot.
    Empty,
    /// A widget that aligns its child.
    Align(AlignView),
    /// A row or a column of widgets.
    Flex(FlexView),
    /// A text label.
    Label(LabelView),
    /// A widget that pads its child.
    Padding(PaddingView),
    /// A widget with a fixed width or height.
    SizedBox(SizedBoxView),
}

/// The kinds of widgets.
#[derive(Clone, Copy, Debug, PartialEq, Eq, Structural)]
pub enum WidgetKind {
    /// The empty slot.
    Empty,
    /// A widget that aligns its child.
    Align,
    /// A row or a column of widgets.
    Flex,
    /// A text label.
    Label,
    /// A widget that pads its child.
    Padding,
    /// A widget with a fixed width or height.
    SizedBox,
}

/// Whether two tables have the same number of slots and hold widgets of
/// the same kind, under the same identifier, in every slot.
pub open spec fn same_kinds(a: Seq<WidgetView>, b: Seq<WidgetView>) -> bool {
    &&& a.len() == b.len()
    &&& forall|j: int|
        0 <= j < a.len() ==> (#[trigger] a[j]).kind() == b[j].kind() && a[j].id() == b[j].id()
}

impl WidgetView {
    /// The kind of the widget.
    pub open spec fn kind(self) -> WidgetKind {
        match self {
            WidgetView::Empty => WidgetKind::Empty,
            WidgetView::Align(_) => WidgetKind::Align,
            WidgetView::Flex(_) => WidgetKind::Flex,
            WidgetView::Label(_) => WidgetKind::Label,
            WidgetView::Padding(_) => WidgetKind::Padding,
            WidgetView::SizedBox(_) => WidgetKind::SizedBox,
        }
    }

    /// The identifier of the widget; the empty slot has none.
    pub open spec fn id(self) -> Option<WidgetId> {
        match self {
            WidgetView::Empty => None,
            WidgetView::Align(w) => Some(w.id),
            WidgetView::Flex(w) => Some(w.id),
            WidgetView::Label(w) => Some(w.id),
            WidgetView::Padding(w) => Some(w.id),
            WidgetView::SizedBox(w) => Some(w.id),
        }
    }

    /// Whether every child of the widget has a smaller identifier than the
    /// widget itself: a child is made before its parent.
    pub open spec fn well_formed(self) -> bool {
        match self {
            WidgetView::Empty => true,
            WidgetView::Align(w) => w.well_formed(),
            WidgetView::Flex(w) => w.well_formed(),
            WidgetView::Label(w) => true,
            WidgetView::Padding(w) => w.well_formed(),
            WidgetView::SizedBox(w) => w.well_formed(),
        }
    }
}

/// Whether `w` may stand in slot `i`: the slot is empty, or it holds a
/// well-formed widget whose identifier is `i`.
pub open spec fn slot_ok(w: WidgetView, i: int) -> bool {
    w is Empty || (w.id() matches Some(id) && id.0 == i && w.well_formed())
}

/// Whether every slot of a table holds what may stand in it.
pub open spec fn table_wf(slots: Seq<WidgetView>) -> bool {
    forall|i: int| 0 <= i < slots.len() ==> slot_ok(#[trigger] slots[i], i)
}

/// The layout of the widget in slot `id`: the size it reports, and the
/// table and the context after the pass. An empty slot reports the zero
/// size and changes nothing.
pub open spec fn layout_slot(
    slots: Seq<WidgetView>,
    ctx: LayoutCtxView,
    id: int,
    bc: BoxConstraints,
) -> Laid<()>
    decreases id, 3int, 0int,
{
    if 0 <= id < slots.len() && slot_ok(slots[id], id) {
        let rest = slots.update(id, WidgetView::Empty);
        match slots[id] {
            WidgetView::Empty => Laid { size: Size::spec_zero(), widget: (), slots, ctx },
            WidgetView::Align(w) => {
                let r = w.layout(rest, ctx, bc);
                Laid {
                    size: r.size,
                    widget: (),
                    slots: r.slots.update(id, WidgetView::Align(r.widget)),
                    ctx: r.ctx,
                }
            },
            WidgetView::Flex(w) => {
                let r = w.layout(rest, ctx, bc);
                Laid {
                    size: r.size,
                    widget: (),
                    slots: r.slots.update(id, WidgetView::Flex(r.widget)),
                    ctx: r.ctx,
                }
            },
            WidgetView::Label(w) => Laid { size: w.layout_size(bc), widget: (), slots, ctx },
            WidgetView::Padding(w) => {
                let r = w.layout(rest, ctx, bc);
                Laid {
                    size: r.size,
                    widget: (),
                    slots: r.slots.update(id, WidgetView::Padding(r.widget)),
                    ctx: r.ctx,
                }
            },
            WidgetView::SizedBox(w) => {
                let r = w.layout(rest, ctx, bc);
                Laid {
                    size: r.size,
                    widget: (),
                    slots: r.slots.update(id, WidgetView::SizedBox(r.widget)),
                    ctx: r.ctx,
                }
            },
        }
    } else {
        Laid { size: Size::spec_zero(), widget: (), slots, ctx }
    }
}

/// What painting the widget in slot `id` records, when `state` is the state
/// that its parent keeps for it, `region` the region to paint in the
/// widget's coordinates, and `offset` the widget's origin in the window. A
/// label records one operation; a container records what its children
/// record; an empty slot records nothing.
pub open spec fn paint_slot(
    slots: Seq<WidgetView>,
    id: int,
    state: WidgetStateView,
    region: Rect,
    offset: Vec2,
) -> Seq<PaintOp>
    decreases id, 3int, 0int,
{
    if 0 <= id < slots.len() && slot_ok(slots[id], id) {
        let rest = slots.update(id, WidgetView::Empty);
        match slots[id] {
            WidgetView::Empty => Seq::<PaintOp>::empty(),
            WidgetView::Align(w) => w.painted(rest, region, offset),
            WidgetView::Flex(w) => w.painted(rest, region, offset),
            WidgetView::Label(w) => seq![w.painted(state, offset)],
            WidgetView::Padding(w) => w.painted(rest, region, offset),
            WidgetView::SizedBox(w) => w.painted(rest, region, offset),
        }
    } else {
        Seq::<PaintOp>::empty()
    }
}

impl<T> WidgetType<T> {
    /// The widget as plain values.
    pub open spec fn view(&self) -> WidgetView {
        match self {
            WidgetType::Empty => WidgetView::Empty,
            WidgetType::Align(w) => WidgetView::Align(w@),
            WidgetType::Flex(w) => WidgetView::Flex(w@),
            WidgetType::Label(w) => WidgetView::Label(w@),
            WidgetType::Padding(w) => WidgetView::Padding(w@),
            WidgetType::SizedBox(w) => WidgetView::SizedBox(w@),
        }
    }

    /// The kind of the widget.
    pub fn kind(&self) -> (k: WidgetKind)
        ensures
            k == self@.kind(),
    {
        match self {
            WidgetType::Empty => WidgetKind::Empty,
            WidgetType::Align(_) => WidgetKind::Align,
            WidgetType::Flex(_) => WidgetKind::Flex,
            WidgetType::Label(_) => WidgetKind::Label,
            WidgetType::Padding(_) => WidgetKind::Padding,
            WidgetType::SizedBox(_) => WidgetKind::SizedBox,
        }
    }

    /// Whether this is the empty slot.
    pub fn is_none(&self) -> (b: bool)
        ensures
            b == (self@ is Empty),
    {
        match self {
            WidgetType::Empty => true,
            _ => false,
        }
    }
}

/// Why a widget could not be added to a table.
#[derive(Clone, Copy, Debug, PartialEq, Eq, Structural)]
pub enum TableError {
    /// The identifier lies beyond the capacity of the table.
    Full,
    /// The slot of the identifier holds a widget already.
    Occupied,
}

/// The table of the widgets of a tree: a fixed number of slots, indexed by
/// widget identifier.
///
/// A slot is written once, when its widget is registered. After that it
/// changes only through the passes, and it is never emptied.
pub struct WidgetTable<T> {
    slots: Vec<WidgetType<T>>,
}

impl<T> WidgetTable<T> {
    /// The slots of the table, as plain values.
    pub closed spec fn view(&self) -> Seq<WidgetView> {
        self.slots@.map_values(|w: WidgetType<T>| w@)
    }

    /// Whether every slot holds what may stand in it.
    pub open spec fn wf(&self) -> bool {
        table_wf(self@)
    }

    /// Whether the widget `w` can be registered: it has an identifier within
    /// the capacity, its slot is empty, and it is well formed.
    pub open spec fn accepts(&self, w: WidgetView) -> bool {
        w.id() matches Some(id) && id.0 < self@.len() && self@[id.0 as int] is Empty
            && w.well_formed()
    }

    /// A table of [`MAX_WIDGETS`] empty slots.
    pub fn new() -> (table: WidgetTable<T>)
        ensures
            table@.len() == MAX_WIDGETS,
            forall|i: int| 0 <= i < table@.len() ==> table@[i] is Empty,
            table.wf(),
    {
        WidgetTable::with_capacity(MAX_WIDGETS)
    }

    /// A table of `capacity` empty slots.
    pub fn with_capacity(capacity: usize) -> (table: WidgetTable<T>)
        ensures
            table@.len() == capacity,
            forall|i: int| 0 <= i < table@.len() ==> table@[i] is Empty,
            table.wf(),
    {
        let mut slots: Vec<WidgetType<T>> = Vec::new();
        let mut i: usize = 0;
        while i < capacity
            invariant
                i <= capacity,
                slots@.len() == i,
                forall|k: int| 0 <= k < i ==> (#[trigger] slots@[k])@ is Empty,
            decreases capacity - i,
        {
            slots.push(WidgetType::Empty);
            i = i + 1;
        }
        WidgetTable { slots }
    }

    /// The number of slots.
    pub fn capacity(&self) -> (n: usize)
        ensures
            n == self@.len(),
    {
        self.slots.len()
    }

    /// Whether the slot of `id` holds a widget.
    pub fn is_registered(&self, id: WidgetId) -> (b: bool)
        ensures
            b == (id.0 < self@.len() && !(self@[id.0 as int] is Empty)),
    {
        let idx: usize = id.0 as usize;
        if idx < self.slots.len() {
            !self.slots[idx].is_none()
        } else {
            false
        }
    }

    /// The widget in the slot of `id`, or `None` where the identifier lies
    /// beyond the capacity.
    pub fn get(&self, id: WidgetId) -> (w: Option<&WidgetType<T>>)
        ensures
            match w {
                Some(w) => id.0 < self@.len() && w@ == self@[id.0 as int],
                None => id.0 >= self@.len(),
            },
    {
        let idx: usize = id.0 as usize;
        if idx < self.slots.len() {
            Some(&self.slots[idx])
        } else {
            None
        }
    }

    /// Add a widget under its identifier.
    ///
    /// The caller has made sure that the identifier lies within the
    /// capacity and that the slot is empty. Where that is not known, use
    /// [`WidgetTable::try_add_widget`].
    pub fn add_widget(&mut self, id: WidgetId, widget: WidgetType<T>)
        requires
            old(self).wf(),
            old(self).accepts(widget@),
            widget@.id() == Some(id),
        ensures
            final(self)@ == old(self)@.update(id.0 as int, widget@),
            final(self).wf(),
    {
        self.put(id.0 as usize, widget);
    }

    /// Add a widget under its identifier, or report why it cannot be added.
    ///
    /// An identifier beyond the capacity is reported as [`TableError::Full`],
    /// a slot that holds a widget already as [`TableError::Occupied`]. In
    /// both cases the table stays as it is.
    pub fn try_add_widget(&mut self, id: WidgetId, widget: WidgetType<T>) -> (r: Result<
        (),
        TableError,
    >)
        requires
            old(self).wf(),
            widget@.id() == Some(id),
            widget@.well_formed(),
        ensures
            r == Err::<(), TableError>(TableError::Full) <==> id.0 >= old(self)@.len(),
            r == Err::<(), TableError>(TableError::Occupied) <==> (id.0 < old(self)@.len() && !(old(
                self,
            )@[id.0 as int] is Empty)),
            r is Ok <==> old(self).accepts(widget@),
            r is Ok ==> final(self)@ == old(self)@.update(id.0 as int, widget@),
            r is Err ==> final(self)@ == old(self)@,
            final(self).wf(),
    {
        let idx: usize = id.0 as usize;
        if idx >= self.slots.len() {
            Err(TableError::Full)
        } else if !self.slots[idx].is_none() {
            Err(TableError::Occupied)
        } else {
            self.put(idx, widget);
            Ok(())
        }
    }

    /// Takes the widget out of slot `idx` and leaves the slot empty.
    pub(crate) fn take(&mut self, idx: usize) -> (w: WidgetType<T>)
        requires
            idx < old(self)@.len(),
        ensures
            w@ == old(self)@[idx as int],
            final(self)@ == old(self)@.update(idx as int, WidgetView::Empty),
    {
        let mut w = WidgetType::Empty;
        core::mem::swap(&mut w, &mut self.slots[idx]);
        assert(self@ =~= old(self)@.update(idx as int, WidgetView::Empty));
        w
    }

    /// Writes a widget into slot `idx`.
    pub(crate) fn put(&mut self, idx: usize, widget: WidgetType<T>)
        requires
            idx < old(self)@.len(),
        ensures
            final(self)@ == old(self)@.update(idx as int, widget@),
    {
        let mut w = widget;
        core::mem::swap(&mut w, &mut self.slots[idx]);
        assert(self@ =~= old(self)@.update(idx as int, widget@));
    }
}

/// A widget that stands in the widget table: the box holds the identifier.
pub struct BoxedWidget<T>(pub WidgetId, pub Option<T>);

impl<T> BoxedWidget<T> {
    /// Create a new box for the widget: the widget is added to the table
    /// under its identifier.
    pub fn new<W: Widget<T>>(table: &mut WidgetTable<T>, widget: W) -> (boxed: BoxedWidget<T>)
        requires
            old(table).wf(),
            old(table).accepts(widget.spec_to_type()),
        ensures
            Some(boxed.0) == widget.spec_id(),
            boxed.1 is None,
            final(table)@ == old(table)@.update(boxed.0.0 as int, widget.spec_to_type()),
            final(table).wf(),
    {
        proof {
            widget.lemma_id_of_type();
        }
        let id = widget.id().unwrap();
        let boxed = BoxedWidget::new_by_id(id);
        let widget_type: WidgetType<T> = widget.to_type();
        table.add_widget(id, widget_type);
        boxed
    }

    /// The box for the widget that stands in the table under `id`.
    pub fn new_by_id(id: WidgetId) -> (boxed: BoxedWidget<T>)
        ensures
            boxed.0 == id,
            boxed.1 is None,
    {
        BoxedWidget(id, None)
    }

    /// The box itself.
    pub fn deref(&self) -> (b: &BoxedWidget<T>)
        ensures
            *b == *self,
    {
        self
    }

    /// The box itself.
    pub fn deref_mut(&self) -> (b: &BoxedWidget<T>)
        ensures
            *b == *self,
    {
        self
    }

    /// Lay out the widget in the table that this box stands for, and return
    /// the size that it reports. An empty slot reports the zero size.
    pub fn layout(
        &mut self,
        table: &mut WidgetTable<T>,
        ctx: &mut LayoutCtx,
        bc: &BoxConstraints,
        data: &T,
        env: &Env,
    ) -> (size: Size)
        requires
            old(table).wf(),
            (old(self).0.0 as int) < old(table)@.len(),
        ensures
            size == layout_slot(old(table)@, old(ctx)@, old(self).0.0 as int, *bc).size,
            final(table)@ == layout_slot(old(table)@, old(ctx)@, old(self).0.0 as int, *bc).slots,
            final(ctx)@ == layout_slot(old(table)@, old(ctx)@, old(self).0.0 as int, *bc).ctx,
            final(table).wf(),
            final(table)@.len() == old(table)@.len(),
            same_kinds(final(table)@, old(table)@),
            *final(self) == *old(self),
        decreases old(self).0.0, 3int, 0int,
    {
        let idx: usize = self.0.0 as usize;
        let mut w = table.take(idx);
        let size = match &mut w {
            WidgetType::Empty => Size::zero(),
            WidgetType::Align(a) => a.layout(table, ctx, bc, data, env),
            WidgetType::Flex(f) => f.layout(table, ctx, bc, data, env),
            WidgetType::Label(l) => l.layout(ctx, bc, data, env),
            WidgetType::Padding(p) => p.layout(table, ctx, bc, data, env),
            WidgetType::SizedBox(s) => s.layout(table, ctx, bc, data, env),
        };
        table.put(idx, w);
        assert(table@ =~= layout_slot(old(table)@, old(ctx)@, old(self).0.0 as int, *bc).slots);
        size
    }
}

impl<T> BoxedWidget<T> {
    /// Deliver an event to the widget in the table that this box stands for. An
    /// empty slot ignores it.
    pub fn event(
        &mut self,
        table: &mut WidgetTable<T>,
        ctx: &mut EventCtx,
        event: &Event,
        data: &mut T,
        env: &Env,
    )
        requires
            old(table).wf(),
            (old(self).0.0 as int) < old(table)@.len(),
        ensures
            *final(self) == *old(self),
            final(table)@ == old(table)@,
            *final(ctx) == *old(ctx),
            *final(data) == *old(data),
        decreases old(self).0.0, 3int, 0int,
    {
        let idx: usize = self.0.0 as usize;
        let mut w = table.take(idx);
        match &mut w {
            WidgetType::Empty => {},
            WidgetType::Align(a) => a.event(table, ctx, event, data, env),
            WidgetType::Flex(f) => f.event(table, ctx, event, data, env),
            WidgetType::Label(l) => l.event(ctx, event, data, env),
            WidgetType::Padding(p) => p.event(table, ctx, event, data, env),
            WidgetType::SizedBox(s) => s.event(table, ctx, event, data, env),
        }
        table.put(idx, w);
        assert(table@ =~= old(table)@);
    }

    /// Deliver a lifecycle notification to the widget in the table that this box stands for. An
    /// empty slot ignores it.
    pub fn lifecycle(
        &mut self,
        table: &mut WidgetTable<T>,
        ctx: &mut LifeCycleCtx,
        event: &LifeCycle,
        data: &T,
        env: &Env,
    )
        requires
            old(table).wf(),
            (old(self).0.0 as int) < old(table)@.len(),
        ensures
            *final(self) == *old(self),
            final(table)@ == old(table)@,
            final(ctx)@ == old(ctx)@,
        decreases old(self).0.0, 3int, 0int,
    {
        let idx: usize = self.0.0 as usize;
        let mut w = table.take(idx);
        match &mut w {
            WidgetType::Empty => {},
            WidgetType::Align(a) => a.lifecycle(table, ctx, event, data, env),
            WidgetType::Flex(f) => f.lifecycle(table, ctx, event, data, env),
            WidgetType::Label(l) => l.lifecycle(ctx, event, data, env),
            WidgetType::Padding(p) => p.lifecycle(table, ctx, event, data, env),
            WidgetType::SizedBox(s) => s.lifecycle(table, ctx, event, data, env),
        }
        table.put(idx, w);
        assert(table@ =~= old(table)@);
    }

    /// Deliver a data update to the widget in the table that this box stands for. An
    /// empty slot ignores it.
    pub fn update(
        &mut self,
        table: &mut WidgetTable<T>,
        ctx: &mut UpdateCtx,
        old_data: &T,
        data: &T,
        env: &Env,
    )
        requires
            old(table).wf(),
            (old(self).0.0 as int) < old(table)@.len(),
        ensures
            *final(self) == *old(self),
            final(table)@ == old(table)@,
            final(ctx)@ == old(ctx)@,
        decreases old(self).0.0, 3int, 0int,
    {
        let idx: usize = self.0.0 as usize;
        let mut w = table.take(idx);
        match &mut w {
            WidgetType::Empty => {},
            WidgetType::Align(a) => a.update(table, ctx, old_data, data, env),
            WidgetType::Flex(f) => f.update(table, ctx, old_data, data, env),
            WidgetType::Label(l) => l.update(ctx, old_data, data, env),
            WidgetType::Padding(p) => p.update(table, ctx, old_data, data, env),
            WidgetType::SizedBox(s) => s.update(table, ctx, old_data, data, env),
        }
        table.put(idx, w);
        assert(table@ =~= old(table)@);
    }
}

impl<T> BoxedWidget<T> {
    /// Paint the widget in the table that this box stands for. An empty
    /// slot paints nothing. Nothing in the table changes.
    pub fn paint(
        &mut self,
        table: &mut WidgetTable<T>,
        ctx: &mut PaintCtx,
        data: &T,
        env: &Env,
    )
        requires
            old(table).wf(),
            (old(self).0.0 as int) < old(table)@.len(),
            old(ctx)@.depth + old(self).0.0 <= u32::MAX,
        ensures
            *final(self) == *old(self),
            final(table)@ == old(table)@,
            final(ctx)@ == (PaintCtxView {
                render: old(ctx)@.render.with_ops(
                    paint_slot(
                        old(table)@,
                        old(self).0.0 as int,
                        old(ctx)@.widget_state,
                        old(ctx)@.region,
                        old(ctx)@.render.offset,
                    ),
                ),
                ..old(ctx)@
            }),
        decreases old(self).0.0, 3int, 0int,
    {
        let idx: usize = self.0.0 as usize;
        let mut w = table.take(idx);
        match &mut w {
            WidgetType::Empty => {
                assert(ctx@.render.ops + Seq::<PaintOp>::empty() =~= ctx@.render.ops);
            },
            WidgetType::Align(a) => a.paint(table, ctx, data, env),
            WidgetType::Flex(f) => f.paint(table, ctx, data, env),
            WidgetType::Label(l) => {
                l.paint(ctx, data, env);
                assert(old(ctx)@.render.ops.push(
                    l@.painted(old(ctx)@.widget_state, old(ctx)@.render.offset),
                ) =~= old(ctx)@.render.ops + seq![
                    l@.painted(old(ctx)@.widget_state, old(ctx)@.render.offset),
                ]);
            },
            WidgetType::Padding(p) => p.paint(table, ctx, data, env),
            WidgetType::SizedBox(s) => s.paint(table, ctx, data, env),
        }
        table.put(idx, w);
        assert(table@ =~= old(table)@);
    }
}

impl<T> Widget<T> for BoxedWidget<T> {
    open spec fn spec_id(&self) -> Option<WidgetId> {
        Some(self.0)
    }

    open spec fn spec_to_type(self) -> WidgetView {
        WidgetView::Empty
    }

    fn id(&self) -> (id: Option<WidgetId>) {
        Some(self.0)
    }

    open spec fn spec_kind_name(&self) -> Seq<char> {
        "Unknown"@
    }

    fn kind_name(&self) -> (name: &'static str) {
        "Unknown"
    }

    fn to_type(self) -> (w: WidgetType<T>) {
        WidgetType::Empty
    }

    proof fn lemma_id_of_type(&self) {
    }
}

} // verus!
