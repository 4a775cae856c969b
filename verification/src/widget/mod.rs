//! Common widgets.

pub mod align;
pub mod boxed_widget;
pub mod flex;
pub mod label;
pub mod padding;
pub mod sized_box;

pub use align::Align;
pub use boxed_widget::{
    BoxedWidget, TableError, WidgetKind, WidgetTable, WidgetType, MAX_WIDGETS,
};
pub use flex::{Axis, CrossAxisAlignment, Flex, FlexParams, MainAxisAlignment};
pub use label::{Label, LabelText};
pub use padding::Padding;
pub use sized_box::SizedBox;

use vstd::prelude::*;
use crate::id::WidgetId;
use crate::widget::boxed_widget::WidgetView;

verus! {

/// What every widget has in common outside of the passes: its identifier,
/// a name for diagnostics, and the way into the closed set of widget kinds.
///
/// The passes themselves — event, lifecycle, update, layout and paint — are
/// methods of each widget type; a [`BoxedWidget`] dispatches them by kind.
pub trait Widget<T>: Sized {
    /// The identifier of the widget, if it has one.
    spec fn spec_id(&self) -> Option<WidgetId>;

    /// The widget as one of the closed set of kinds, as plain values.
    spec fn spec_to_type(self) -> WidgetView;

    /// Get the identity of the widget.
    fn id(&self) -> (id: Option<WidgetId>)
        ensures
            id == self.spec_id(),
    ;

    /// The name of the kind of the widget.
    spec fn spec_kind_name(&self) -> Seq<char>;

    /// A name for the kind of the widget, for diagnostics.
    fn kind_name(&self) -> (name: &'static str)
        ensures
            name@ == self.spec_kind_name(),
    ;

    /// Wraps the widget into the variant of its kind.
    fn to_type(self) -> (w: WidgetType<T>)
        ensures
            w@ == self.spec_to_type(),
    ;

    /// A widget that is of one of the kinds carries its own identifier
    /// into the variant.
    proof fn lemma_id_of_type(&self)
        ensures
            !(self.spec_to_type() is Empty) ==> self.spec_to_type().id() == self.spec_id(),
    ;
}

} // verus!
