//! Events and lifecycle notifications that the host delivers to the widget tree.

use vstd::prelude::*;
use crate::geometry::Size;
use crate::id::WidgetId;

verus! {

/// A handle to the system clipboard.
#[derive(Clone, Copy, Debug, PartialEq, Eq, Structural)]
pub struct Clipboard();

/// An arbitrary command sent through the tree.
#[derive(Clone, Copy, Debug, PartialEq, Eq, Structural)]
pub struct Command();

/// The meaning of a key press.
#[derive(Clone, Copy, Debug, PartialEq, Eq, Structural)]
pub struct KbKey();

/// A key press or release.
#[derive(Clone, Copy, Debug, PartialEq, Eq, Structural)]
pub struct KeyEvent();

/// The modifier keys held during an event.
#[derive(Clone, Copy, Debug, PartialEq, Eq, Structural)]
pub struct Modifiers();

/// The state of the mouse for a click, mouse-up, or move event.
#[derive(Clone, Copy, Debug, PartialEq, Eq, Structural)]
pub struct MouseEvent();

/// The target of a command.
#[derive(Clone, Copy, Debug, PartialEq, Eq, Structural)]
pub struct Target();

/// A token that identifies a timer request.
#[derive(Clone, Copy, Debug, PartialEq, Eq, Structural)]
pub struct TimerToken();

/// An event, propagated downwards during event flow.
#[derive(Clone, Copy, Debug, PartialEq, Eq, Structural)]
pub enum Event {
    /// Sent to all widgets in a given window when that window is first
    /// instantiated.
    WindowConnected,
    /// Called on the root widget when the window size changes.
    WindowSize(Size),
    /// Called when a mouse button is pressed.
    MouseDown(MouseEvent),
    /// Called when a mouse button is released.
    MouseUp(MouseEvent),
    /// Called when the mouse is moved.
    MouseMove(MouseEvent),
    /// Called when the mouse wheel or trackpad is scrolled.
    Wheel(MouseEvent),
    /// Called when a key is pressed.
    KeyDown(KeyEvent),
    /// Called when a key is released.
    KeyUp(KeyEvent),
    /// Called when a paste command is received.
    Paste(Clipboard),
    /// Called on a timer event.
    Timer(TimerToken),
    /// Called with an arbitrary command.
    Command(Command),
    /// Internal event, handled by the framework.
    Internal(InternalEvent),
}

/// Internal events used by the framework, which are routed to a particular widget.
#[derive(Clone, Copy, Debug, PartialEq, Eq, Structural)]
pub enum InternalEvent {
    /// Sent when the mouse leaves the window.
    MouseLeave,
    /// A command still being routed to its target.
    TargetedCommand(Target, Command),
    /// Used for routing timer events.
    RouteTimer(TimerToken, WidgetId),
}

/// Application life cycle events.
#[derive(Clone, Copy, Debug, PartialEq, Eq, Structural)]
pub enum LifeCycle {
    /// Sent to a widget when it is added to the widget tree.
    WidgetAdded,
    /// Called when the size of the widget changes.
    Size(Size),
    /// Called at the beginning of a new animation frame.
    AnimFrame(u64),
    /// Called when the "hot" status changes.
    HotChanged(bool),
    /// Called when the focus status changes.
    FocusChanged(bool),
    /// Internal lifecycle event, handled by the framework.
    Internal(InternalLifeCycle),
}

/// Internal lifecycle events used by the framework.
#[derive(Clone, Copy, Debug, PartialEq, Eq, Structural)]
pub enum InternalLifeCycle {
    /// Used to route the `WidgetAdded` event to the required widgets.
    RouteWidgetAdded,
    /// Used to route the `FocusChanged` event.
    RouteFocusChanged {
        /// The widget that is losing focus, if any.
        old: Option<WidgetId>,
        /// The widget that is gaining focus, if any.
        new: Option<WidgetId>,
    },
}

} // verus!
