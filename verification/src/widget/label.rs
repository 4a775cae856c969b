//! A label widget.

use vstd::prelude::*;
use vstd::string::*;
use crate::box_constraints::BoxConstraints;
use crate::contexts::{EventCtx, LayoutCtx, LifeCycleCtx, UpdateCtx, WidgetStateView};
use crate::env::{Env, KeyOrValue};
use crate::event::{Event, LifeCycle};
use crate::factor::ScreenFactor;
use crate::geometry::{Color, Rect, SCREEN_MAX, ScreenCoord, Size, Vec2};
use crate::id::{Counter, WidgetId};
use crate::paint::{PaintCtx, PaintCtxView, PaintOp, PietView};
use crate::text::{
    line_height, spec_line_height, spec_text_width, BoxedText, LocalizedString, PietText, Text,
    TEXT_CAPACITY,
};
use crate::theme;
use crate::widget::Widget;
use crate::widget::boxed_widget::{WidgetType, WidgetView};

verus! {

/// The text for the label.
pub enum LabelText<T> {
    /// Localized string that will be resolved through the environment.
    Localized(LocalizedString<T>),
    /// Specific text.
    Specific(Text),
    /// The provided text is computed by the host from the data.
    Dynamic(BoxedText),
}

impl<T> LabelText<T> {
    /// The text that is displayed.
    pub open spec fn view(&self) -> Seq<char> {
        match self {
            LabelText::Localized(_) => "localized_str"@,
            LabelText::Specific(s) => s@,
            LabelText::Dynamic(b) => b@,
        }
    }
}

/// A label that displays some text.
pub struct Label<T> {
    id: WidgetId,
    text: LabelText<T>,
    color: KeyOrValue<Color>,
    size: KeyOrValue<ScreenFactor>,
    font: KeyOrValue<&'static str>,
}

/// A label, as plain values.
pub struct LabelView {
    /// The identifier of the label.
    pub id: WidgetId,
    /// The text that is displayed.
    pub text: Seq<char>,
    /// The color of the text.
    pub color: Color,
    /// The size of the text, as a factor of the built-in font.
    pub size: ScreenFactor,
    /// The name of the font.
    pub font: Seq<char>,
}

impl LabelView {
    /// The size of the text when nothing constrains it: the width of the
    /// characters and the height of one line.
    pub open spec fn natural_size(self) -> Size {
        Size {
            width: spec_text_width(self.text.len(), self.size),
            height: spec_line_height(self.size),
        }
    }

    /// The size that the label reports under `bc`: its natural size,
    /// clamped into the constraints.
    pub open spec fn layout_size(self, bc: BoxConstraints) -> Size {
        bc.spec_constrain(self.natural_size())
    }
}

impl<T> Label<T> {
    /// The label as plain values.
    pub closed spec fn view(&self) -> LabelView {
        LabelView {
            id: self.id,
            text: self.text@,
            color: self.color.0,
            size: self.size.0,
            font: self.font.0@,
        }
    }

    /// Construct a new `Label` widget that shows `text`, in the theme's
    /// color, size and font. The text must fit into a [`Text`].
    pub fn new(counter: &mut Counter, text: &str) -> (label: Label<T>)
        requires
            !old(counter).spec_is_exhausted(),
            text.spec_bytes().len() <= TEXT_CAPACITY,
        ensures
            label@.id.0 == old(counter)@,
            label@.text == text@,
            label@.size == theme::spec_text_size_normal().0,
            label@.color == Color::Rgba32(0xffffff),
            label@.font == "standard_font"@,
            final(counter)@ == old(counter)@ + 1,
    {
        Label::from_text(counter, LabelText::Specific(Text::from_str(text).unwrap()))
    }

    /// Construct a new `Label` widget from a text source.
    pub fn from_text(counter: &mut Counter, text: LabelText<T>) -> (label: Label<T>)
        requires
            !old(counter).spec_is_exhausted(),
        ensures
            label@.id.0 == old(counter)@,
            label@.text == text@,
            label@.size == theme::spec_text_size_normal().0,
            label@.color == Color::Rgba32(0xffffff),
            label@.font == "standard_font"@,
            final(counter)@ == old(counter)@ + 1,
    {
        Label {
            id: WidgetId::next(counter),
            text,
            color: theme::label_color(),
            size: theme::text_size_normal(),
            font: theme::font_name(),
        }
    }

    /// Construct a new `Label` whose text the host computes from the data.
    pub fn dynamic(counter: &mut Counter, text: BoxedText) -> (label: Label<T>)
        requires
            !old(counter).spec_is_exhausted(),
        ensures
            label@.id.0 == old(counter)@,
            label@.text == text@,
            label@.size == theme::spec_text_size_normal().0,
            label@.color == Color::Rgba32(0xffffff),
            label@.font == "standard_font"@,
            final(counter)@ == old(counter)@ + 1,
    {
        Label::from_text(counter, LabelText::Dynamic(text))
    }

    /// Builder-style method for setting the text color.
    pub fn with_text_color(self, color: KeyOrValue<Color>) -> (label: Label<T>)
        ensures
            label@ == (LabelView { color: color.0, ..self@ }),
    {
        Label { id: self.id, text: self.text, color, size: self.size, font: self.font }
    }

    /// Builder-style method for setting the text size.
    pub fn with_text_size(self, size: KeyOrValue<ScreenFactor>) -> (label: Label<T>)
        ensures
            label@ == (LabelView { size: size.0, ..self@ }),
    {
        Label { id: self.id, text: self.text, color: self.color, size, font: self.font }
    }

    /// Builder-style method for setting the font.
    pub fn with_font(self, font: KeyOrValue<&'static str>) -> (label: Label<T>)
        ensures
            label@ == (LabelView { font: font.0@, ..self@ }),
    {
        Label { id: self.id, text: self.text, color: self.color, size: self.size, font }
    }

    /// Set a new text.
    pub fn set_text(&mut self, text: LabelText<T>)
        ensures
            final(self)@ == (LabelView { text: text@, ..old(self)@ }),
    {
        self.text = text;
    }

    /// The width of the displayed text in the label's font and size.
    fn text_width(&self, t: &PietText, data: &T, env: &Env) -> (w: ScreenCoord)
        ensures
            w == spec_text_width(self@.text.len(), self@.size),
    {
        let font_name = self.font.resolve(env);
        let font_size = self.size.resolve(env);
        let font = t.new_font_by_name(font_name, font_size).build().unwrap();
        let layout = match &self.text {
            LabelText::Localized(l) => t.new_text_layout(&font, l.localized_str(), SCREEN_MAX),
            LabelText::Specific(s) => t.new_text_layout(&font, s.as_str(), SCREEN_MAX),
            LabelText::Dynamic(b) => {
                let text = b.resolve(data, env);
                t.new_text_layout(&font, text.as_str(), SCREEN_MAX)
            },
        };
        layout.build().unwrap().width()
    }

    /// Lay out the label: it reports the size of its text, clamped into the
    /// constraints. A label has no children, so the pass ends here.
    pub fn layout(
        &mut self,
        ctx: &mut LayoutCtx,
        bc: &BoxConstraints,
        data: &T,
        env: &Env,
    ) -> (size: Size)
        ensures
            size == old(self)@.layout_size(*bc),
            final(self)@ == old(self)@,
            final(ctx)@ == old(ctx)@,
    {
        let font_size = self.size.resolve(env);
        let width: ScreenCoord = self.text_width(&ctx.text(), data, env);
        bc.constrain(Size::new(width, line_height(font_size)))
    }
}

impl<T> Label<T> {
    /// Receive an event. A label has no children and does not react.
    pub fn event(
        &mut self,
        ctx: &mut EventCtx,
        event: &Event,
        data: &mut T,
        env: &Env,
    )
        ensures
            final(self)@ == old(self)@,
            *final(ctx) == *old(ctx),
            *final(data) == *old(data),
    {
    }

    /// Receive a lifecycle notification. A label has no children and does not react.
    pub fn lifecycle(
        &mut self,
        ctx: &mut LifeCycleCtx,
        event: &LifeCycle,
        data: &T,
        env: &Env,
    )
        ensures
            final(self)@ == old(self)@,
            final(ctx)@ == old(ctx)@,
    {
    }

    /// Receive a data update. A label has no children and does not react.
    pub fn update(
        &mut self,
        ctx: &mut UpdateCtx,
        old_data: &T,
        data: &T,
        env: &Env,
    )
        ensures
            final(self)@ == old(self)@,
            final(ctx)@ == old(ctx)@,
    {
    }
}

impl LabelView {
    /// What painting the label records: its text, drawn at the label's
    /// origin in the size that the label was laid out with.
    pub open spec fn painted(self, state: WidgetStateView, offset: Vec2) -> PaintOp {
        PaintOp {
            id: self.id,
            rect: Rect::spec_from_origin_size(
                offset.spec_to_point(),
                state.layout_rect.spec_size(),
            ),
        }
    }
}

impl<T> Label<T> {
    /// Paint the label: its text is drawn within its placement rect. A
    /// label has no children, so the pass ends here.
    pub fn paint(&mut self, ctx: &mut PaintCtx, data: &T, env: &Env)
        ensures
            final(self)@ == old(self)@,
            final(ctx)@ == (PaintCtxView {
                render: PietView {
                    ops: old(ctx)@.render.ops.push(
                        old(self)@.painted(old(ctx)@.widget_state, old(ctx)@.render.offset),
                    ),
                    ..old(ctx)@.render
                },
                ..old(ctx)@
            }),
    {
        ctx.draw(self.id);
    }
}

impl<T> Widget<T> for Label<T> {
    open spec fn spec_id(&self) -> Option<WidgetId> {
        Some(self@.id)
    }

    open spec fn spec_to_type(self) -> WidgetView {
        WidgetView::Label(self@)
    }

    fn id(&self) -> (id: Option<WidgetId>) {
        Some(self.id)
    }

    open spec fn spec_kind_name(&self) -> Seq<char> {
        "Label"@
    }

    fn kind_name(&self) -> (name: &'static str) {
        "Label"
    }

    fn to_type(self) -> (w: WidgetType<T>) {
        WidgetType::Label(self)
    }

    proof fn lemma_id_of_type(&self) {
    }
}

} // verus!
