//! The per-node state that is kept between passes, and the contexts that
//! carry it through the layout, lifecycle, update and event passes.

use vstd::prelude::*;
use crate::bloom::{Bloom, with_added};
use crate::geometry::{Insets, Point, Rect, Size};
use crate::id::{CounterType, WidgetId};
use crate::region::Region;
use crate::text::PietText;

verus! {

/// State that is shared by every context of one pass.
#[derive(Clone, Copy, Debug, PartialEq, Eq, Structural)]
pub struct ContextState();

/// Generic state for all widgets in the hierarchy.
///
/// This struct contains the widget's layout rect, the insets by which it may
/// paint outside of that rect, the region that has to be painted again, and
/// the identifiers of the children that were registered with it.
pub struct WidgetState {
    layout_rect: Rect,
    paint_insets: Insets,
    invalid: Region,
    needs_layout: bool,
    children: Bloom,
}

/// What a [`WidgetState`] holds, as plain values.
pub struct WidgetStateView {
    /// The rectangle, in the parent's coordinates, in which the widget is laid out.
    pub layout_rect: Rect,
    /// How far outside of the layout rect the widget may paint.
    pub paint_insets: Insets,
    /// The bound of what has to be painted again.
    pub invalid: Rect,
    /// Whether a layout pass was requested.
    pub needs_layout: bool,
    /// The identifiers of the registered children, in the order of registration.
    pub children: Seq<CounterType>,
}

impl WidgetStateView {
    /// The state of a widget that has not been laid out yet.
    pub open spec fn initial() -> WidgetStateView {
        WidgetStateView {
            layout_rect: Rect::spec_zero(),
            paint_insets: Insets::spec_zero(),
            invalid: Rect::spec_zero(),
            needs_layout: false,
            children: Seq::<CounterType>::empty(),
        }
    }

    /// The rectangle in which the widget may paint: the layout rect grown by
    /// the paint insets.
    pub open spec fn paint_rect(self) -> Rect {
        self.layout_rect.spec_inset(self.paint_insets)
    }

    /// How far the widget's paint rect reaches outside of a parent of the given size.
    pub open spec fn parent_paint_insets(self, parent_size: Size) -> Insets {
        let parent_bounds = Rect::spec_from_origin_size(
            Rect::spec_zero().spec_origin(),
            parent_size,
        );
        self.paint_rect().spec_union(parent_bounds).spec_insets_from(parent_bounds)
    }
}

impl Clone for WidgetState {
    fn clone(&self) -> (copy: WidgetState)
        ensures
            copy@ == self@,
    {
        WidgetState {
            layout_rect: self.layout_rect,
            paint_insets: self.paint_insets,
            invalid: self.invalid,
            needs_layout: self.needs_layout,
            children: self.children.clone(),
        }
    }
}

impl WidgetState {
    /// The state as plain values.
    pub closed spec fn view(&self) -> WidgetStateView {
        WidgetStateView {
            layout_rect: self.layout_rect,
            paint_insets: self.paint_insets,
            invalid: self.invalid@,
            needs_layout: self.needs_layout,
            children: self.children@,
        }
    }

    /// The state of a widget that has not been laid out yet: a zero-size
    /// rect at the origin, no paint insets, nothing to repaint, no children.
    pub fn new() -> (s: WidgetState)
        ensures
            s@ == WidgetStateView::initial(),
    {
        WidgetState {
            layout_rect: Rect::zero(),
            paint_insets: Insets::zero(),
            invalid: Region::empty(),
            needs_layout: false,
            children: Bloom::new(),
        }
    }

    /// The rectangle in which the widget is laid out.
    pub fn layout_rect(&self) -> (r: Rect)
        ensures
            r == self@.layout_rect,
    {
        self.layout_rect
    }

    /// The size of the layout rect.
    pub fn size(&self) -> (s: Size)
        ensures
            s == self@.layout_rect.spec_size(),
    {
        self.layout_rect.size()
    }

    /// How far outside of the layout rect the widget may paint.
    pub fn paint_insets(&self) -> (i: Insets)
        ensures
            i == self@.paint_insets,
    {
        self.paint_insets
    }

    /// The rectangle in which the widget may paint.
    pub fn paint_rect(&self) -> (r: Rect)
        ensures
            r == self@.paint_rect(),
    {
        self.layout_rect + self.paint_insets
    }

    /// Whether a layout pass was requested.
    pub fn needs_layout(&self) -> (b: bool)
        ensures
            b == self@.needs_layout,
    {
        self.needs_layout
    }

    /// The region that has to be painted again.
    pub fn invalid(&self) -> (r: Region)
        ensures
            r@ == self@.invalid,
    {
        self.invalid
    }

    /// Whether `id` was registered as a child.
    pub fn has_child(&self, id: &WidgetId) -> (b: bool)
        ensures
            b == self@.children.contains(id.0),
    {
        self.children.may_contain(id)
    }

    /// Records the rectangle in which the widget is laid out.
    pub fn set_layout_rect(&mut self, rect: Rect)
        ensures
            final(self)@ == (WidgetStateView { layout_rect: rect, ..old(self)@ }),
    {
        self.layout_rect = rect;
    }

    /// Records how far outside of the layout rect the widget may paint.
    pub fn set_paint_insets(&mut self, insets: Insets)
        ensures
            final(self)@ == (WidgetStateView { paint_insets: insets, ..old(self)@ }),
    {
        self.paint_insets = insets;
    }

    /// Records that a layout pass is wanted.
    pub fn request_layout(&mut self)
        ensures
            final(self)@ == (WidgetStateView { needs_layout: true, ..old(self)@ }),
    {
        self.needs_layout = true;
    }

    /// Adds a rectangle to what has to be painted again.
    pub fn invalidate(&mut self, rect: Rect)
        ensures
            final(self)@ == (WidgetStateView {
                invalid: Region::added(old(self)@.invalid, rect),
                ..old(self)@
            }),
    {
        self.invalid.add_rect(rect);
    }

    /// Registers a child. A registry that is full stays as it is.
    pub fn register_child(&mut self, child_id: WidgetId)
        ensures
            final(self)@ == (WidgetStateView {
                children: with_added(old(self)@.children, child_id.0),
                ..old(self)@
            }),
    {
        self.children.add(&child_id);
    }

    /// How far the widget's paint rect reaches outside of a parent of the
    /// given size. The insets are zero when the widget paints inside of its
    /// parent.
    pub fn compute_parent_paint_insets(&self, parent_size: Size) -> (i: Insets)
        ensures
            i == self@.parent_paint_insets(parent_size),
    {
        let parent_bounds = Rect::zero().with_size(parent_size);
        let union_paint_rect = self.paint_rect().union(parent_bounds);
        union_paint_rect - parent_bounds
    }
}

/// A widget that paints inside of its parent asks for no paint insets:
/// as long as its paint rect lies within the parent's bounds, the insets
/// of the parent are zero.
pub proof fn lemma_no_insets_inside_parent(state: WidgetStateView, parent_size: Size)
    requires
        state.paint_rect().x1 <= parent_size.width,
        state.paint_rect().y1 <= parent_size.height,
    ensures
        state.parent_paint_insets(parent_size) == Insets::spec_zero(),
{
}

/// A context provided to event handling methods of widgets.
#[derive(Clone, Copy, Debug, PartialEq, Eq, Structural)]
pub struct EventCtx();

/// What a layout pass found worth telling, without stopping for it.
#[derive(Clone, Copy, Debug, PartialEq, Eq, Structural)]
pub enum LayoutWarning {
    /// The child of an aligning widget reported an unbounded width.
    InfiniteWidth(WidgetId),
    /// The child of an aligning widget reported an unbounded height.
    InfiniteHeight(WidgetId),
    /// A child of a flex container is flexible, but the container is unbounded.
    UnboundedFlex(WidgetId),
}

/// A context provided to layout handling methods of widgets.
///
/// As of now, the main service provided is access to a factory for
/// creating text layout objects, which are likely to be useful
/// during widget layout.
pub struct LayoutCtx {
    /// State shared by the contexts of the pass.
    pub state: ContextState,
    widget_state: WidgetState,
    /// The position of the mouse, if it is over the window.
    pub mouse_pos: Option<Point>,
    warnings: Vec<LayoutWarning>,
}

/// What a [`LayoutCtx`] holds, as plain values.
pub struct LayoutCtxView {
    /// The state of the widget that is being laid out.
    pub widget_state: WidgetStateView,
    /// The position of the mouse, if it is over the window.
    pub mouse_pos: Option<Point>,
    /// The warnings of the pass so far, oldest first.
    pub warnings: Seq<LayoutWarning>,
}

impl LayoutCtxView {
    /// The context after the widget that is laid out has set its paint insets.
    pub open spec fn with_paint_insets(self, insets: Insets) -> LayoutCtxView {
        LayoutCtxView {
            widget_state: WidgetStateView { paint_insets: insets, ..self.widget_state },
            ..self
        }
    }

    /// The context with one more warning.
    pub open spec fn with_warning(self, warning: LayoutWarning) -> LayoutCtxView {
        LayoutCtxView { warnings: self.warnings.push(warning), ..self }
    }

    /// The context with another widget's state in place.
    pub open spec fn with_state(self, state: WidgetStateView) -> LayoutCtxView {
        LayoutCtxView { widget_state: state, ..self }
    }
}

impl LayoutCtx {
    /// The context as plain values.
    pub closed spec fn view(&self) -> LayoutCtxView {
        LayoutCtxView {
            widget_state: self.widget_state@,
            mouse_pos: self.mouse_pos,
            warnings: self.warnings@,
        }
    }

    /// A context for the root of a tree: a fresh widget state and no warnings.
    pub fn new() -> (ctx: LayoutCtx)
        ensures
            ctx@ == (LayoutCtxView {
                widget_state: WidgetStateView::initial(),
                mouse_pos: None,
                warnings: Seq::<LayoutWarning>::empty(),
            }),
    {
        LayoutCtx {
            state: ContextState(),
            widget_state: WidgetState::new(),
            mouse_pos: None,
            warnings: Vec::new(),
        }
    }

    /// Get an object which can create text layouts.
    pub fn text(&self) -> (t: PietText)
        ensures
            t.size == crate::factor::ScreenFactor::spec_one(),
    {
        PietText::new()
    }

    /// Set explicit paint insets for the widget that is being laid out.
    ///
    /// You are not required to set explicit paint bounds unless you need to
    /// paint outside of your layout bounds.
    pub fn set_paint_insets(&mut self, insets: Insets)
        ensures
            final(self)@ == old(self)@.with_paint_insets(insets),
    {
        self.widget_state.set_paint_insets(insets);
    }

    /// Records a warning for the host to report.
    pub fn warn(&mut self, warning: LayoutWarning)
        ensures
            final(self)@ == old(self)@.with_warning(warning),
    {
        self.warnings.push(warning);
    }

    /// The number of warnings recorded so far.
    pub fn warning_count(&self) -> (n: usize)
        ensures
            n == self@.warnings.len(),
    {
        self.warnings.len()
    }

    /// The `i`-th warning recorded.
    pub fn warning(&self, i: usize) -> (w: LayoutWarning)
        requires
            i < self@.warnings.len(),
        ensures
            w == self@.warnings[i as int],
    {
        self.warnings[i]
    }

    /// The paint insets that the widget laid out last has set.
    pub fn paint_insets(&self) -> (i: Insets)
        ensures
            i == self@.widget_state.paint_insets,
    {
        self.widget_state.paint_insets()
    }

    /// Exchanges the widget state of the context with `state`.
    pub fn swap_state(&mut self, state: &mut WidgetState)
        ensures
            final(self)@ == old(self)@.with_state(old(state)@),
            final(state)@ == old(self)@.widget_state,
    {
        core::mem::swap(&mut self.widget_state, state);
    }
}

/// A context provided to the lifecycle method on widgets.
pub struct LifeCycleCtx {
    widget_state: WidgetState,
    /// State shared by the contexts of the pass.
    pub state: ContextState,
}

impl LifeCycleCtx {
    /// The state of the widget that the context belongs to.
    pub closed spec fn view(&self) -> WidgetStateView {
        self.widget_state@
    }

    /// A context with a fresh widget state.
    pub fn new() -> (ctx: LifeCycleCtx)
        ensures
            ctx@ == WidgetStateView::initial(),
    {
        LifeCycleCtx { widget_state: WidgetState::new(), state: ContextState() }
    }

    /// Registers a child widget.
    ///
    /// This should only be called in response to a `LifeCycle::WidgetAdded` event.
    pub fn register_child(&mut self, child_id: WidgetId)
        ensures
            final(self)@ == (WidgetStateView {
                children: with_added(old(self)@.children, child_id.0),
                ..old(self)@
            }),
    {
        self.widget_state.register_child(child_id);
    }

    /// Whether `id` was registered as a child.
    pub fn has_child(&self, id: &WidgetId) -> (b: bool)
        ensures
            b == self@.children.contains(id.0),
    {
        self.widget_state.has_child(id)
    }
}

/// A mutable context provided to data update methods of widgets.
pub struct UpdateCtx {
    widget_state: WidgetState,
    /// State shared by the contexts of the pass.
    pub state: ContextState,
}

impl UpdateCtx {
    /// The state of the widget that the context belongs to.
    pub closed spec fn view(&self) -> WidgetStateView {
        self.widget_state@
    }

    /// A context with a fresh widget state.
    pub fn new() -> (ctx: UpdateCtx)
        ensures
            ctx@ == WidgetStateView::initial(),
    {
        UpdateCtx { widget_state: WidgetState::new(), state: ContextState() }
    }

    /// Request layout.
    pub fn request_layout(&mut self)
        ensures
            final(self)@ == (WidgetStateView { needs_layout: true, ..old(self)@ }),
    {
        self.widget_state.request_layout();
    }

    /// Whether a layout pass was requested.
    pub fn needs_layout(&self) -> (b: bool)
        ensures
            b == self@.needs_layout,
    {
        self.widget_state.needs_layout()
    }
}

} // verus!
