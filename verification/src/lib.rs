//! A small retained-mode widget tree.
//!
//! A tree of composable widgets — [`widget::Align`], [`widget::Flex`],
//! [`widget::Label`], [`widget::Padding`] and [`widget::SizedBox`] — is
//! driven through the passes event, lifecycle, update, layout and paint.
//! Box constraints flow down the tree and sizes flow up; each parent records
//! in a [`WidgetPod`] where it has placed its child.
//!
//! The widgets of a tree stand in a [`WidgetTable`] of fixed capacity, indexed
//! by [`WidgetId`]. A parent holds a child as a [`BoxedWidget`], which is
//! the child's identifier; every pass looks the child up by kind. A child is
//! always made before its parent, so its identifier is the smaller one.
//!
//! Every contract is stated over plain values: each type that holds
//! collections or text has a view, and each pass has a specification
//! function over the views of the table and of the context.

pub mod bloom;
pub mod box_constraints;
pub mod contexts;
pub mod env;
pub mod event;
pub mod factor;
pub mod geometry;
pub mod id;
pub mod paint;
pub mod pod;
pub mod region;
pub mod shares;
pub mod text;
pub mod theme;
pub mod widget;

pub use bloom::Bloom;
pub use box_constraints::BoxConstraints;
pub use contexts::{
    ContextState, EventCtx, LayoutCtx, LayoutWarning, LifeCycleCtx, UpdateCtx, WidgetState,
};
pub use env::{Env, KeyOrValue};
pub use event::{
    Clipboard, Command, Event, InternalEvent, InternalLifeCycle, KbKey, KeyEvent, LifeCycle,
    Modifiers, MouseEvent, Target, TimerToken,
};
pub use factor::{ScreenFactor, UnitPoint};
pub use geometry::{
    Color, InsetCoord, Insets, Line, Point, Rect, ScreenCoord, Size, Vec2, SCREEN_MAX,
};
pub use id::{Counter, CounterType, WidgetId};
pub use paint::{PaintCtx, PaintOp, Piet, PlatformError, ZOrderPaintOp};
pub use pod::WidgetPod;
pub use region::Region;
pub use text::{BoxedText, LocalizedString, PietText, PietTextLayout, Text, TEXT_CAPACITY};
pub use widget::{BoxedWidget, Widget, WidgetTable, WidgetType, MAX_WIDGETS};
