use druid::text::{line_height, text_width, GLYPH_HEIGHT, GLYPH_WIDTH};
use druid::widget::{Align, Label, LabelText, Padding, SizedBox, WidgetTable, WidgetType};
use druid::{
    theme, BoxConstraints, BoxedText, Color, Counter, Env, KeyOrValue, LayoutCtx, LayoutWarning,
    LocalizedString, PietText, Point, Rect, ScreenFactor, Size, Text, UnitPoint, Widget,
    WidgetId, WidgetPod, TEXT_CAPACITY,
};

fn layout_root<W: Widget<()>>(
    table: &mut WidgetTable<()>,
    root: W,
    bc: BoxConstraints,
) -> (Size, LayoutCtx) {
    let mut pod = WidgetPod::new(root).boxed(table);
    let mut ctx = LayoutCtx::new();
    let size = pod.layout(table, &mut ctx, &bc, &(), &Env());
    (size, ctx)
}

fn bc(min: (u8, u8), max: (u8, u8)) -> BoxConstraints {
    BoxConstraints::new(Size::from(min), Size::from(max))
}

#[test]
fn text_is_measured_in_cells() {
    assert_eq!(GLYPH_WIDTH, 8);
    assert_eq!(GLYPH_HEIGHT, 10);
    assert_eq!(text_width(5, ScreenFactor::one()), 40);
    assert_eq!(text_width(0, ScreenFactor::one()), 0);
    assert_eq!(text_width(5, ScreenFactor::whole(2)), 80);
    assert_eq!(text_width(5, ScreenFactor::new(1, 2)), 20);
    assert_eq!(text_width(40, ScreenFactor::one()), 255);
    assert_eq!(text_width(1000, ScreenFactor::one()), 255);
    assert_eq!(text_width(1000, ScreenFactor::new(0, 1)), 0);
    assert_eq!(line_height(ScreenFactor::one()), 12);
    assert_eq!(line_height(ScreenFactor::whole(2)), 24);
    assert_eq!(line_height(ScreenFactor::new(1, 2)), 6);
}

#[test]
fn text_service_lays_out_one_line() {
    let service = PietText::new();
    let font = service.new_font_by_name("standard_font", ScreenFactor::whole(2)).build().unwrap();
    assert_eq!(font.size, ScreenFactor::whole(2));
    let layout = service.new_text_layout(&font, "Hello", 255).build().unwrap();
    assert_eq!(layout.text.as_str(), "Hello");
    assert_eq!(layout.font.as_str(), "");
    assert_eq!(layout.width(), 80);
    let font = service.new_font_by_name("standard_font", ScreenFactor::one()).build().unwrap();
    let narrow = service.new_text_layout(&font, "Hello", 30);
    assert_eq!(narrow.width(), 30);
}

#[test]
fn text_holds_up_to_its_capacity() {
    assert_eq!(TEXT_CAPACITY, 20);
    assert_eq!(Text::new().as_str(), "");
    assert_eq!(Text::new().char_count(), 0);
    let full = Text::from_str("12345678901234567890").unwrap();
    assert_eq!(full.as_str(), "12345678901234567890");
    assert_eq!(full.char_count(), 20);
    assert!(Text::from_str("123456789012345678901").is_none());
    let copy = full.clone();
    assert_eq!(copy.as_str(), full.as_str());
}

#[test]
fn text_capacity_counts_bytes_not_characters() {
    // Ten characters of two bytes each fill the text.
    let accents = "\u{e9}".repeat(10);
    let text = Text::from_str(&accents).unwrap();
    assert_eq!(text.char_count(), 10);
    assert_eq!(text.as_str().len(), 20);
    assert!(Text::from_str(&"\u{e9}".repeat(11)).is_none());
}

#[test]
fn theme_values() {
    let env = theme::init();
    assert!(env.same(&Env()));
    assert_eq!(theme::label_color().resolve(&env), Color::white());
    assert_eq!(theme::text_size_normal().resolve(&env), ScreenFactor::one());
    assert_eq!(theme::font_name().resolve(&env), "standard_font");
    assert_eq!(KeyOrValue(5u8).resolve(&env), 5);
}

#[test]
fn text_sources() {
    let mut boxed = BoxedText::new();
    assert_eq!(boxed.resolve((), &Env()).as_str(), "");
    boxed.set(Text::from_str("count: 3").unwrap());
    assert_eq!(boxed.resolve((), &Env()).as_str(), "count: 3");
    let localized: LocalizedString<()> = LocalizedString::new("hello-counter");
    assert_eq!(localized.localized_str(), "localized_str");
    assert!(localized.resolve(&(), &Env()));
}

#[test]
fn label_reports_its_text_size() {
    let mut counter = Counter::new();
    let mut table = WidgetTable::with_capacity(32);
    let label = Label::new(&mut counter, "Hello");
    assert_eq!(label.kind_name(), "Label");
    let (size, _) = layout_root(&mut table, label, bc((0, 0), (100, 50)));
    assert_eq!(size, Size::new(40, 12));
}

#[test]
fn label_is_clamped_into_the_constraints() {
    let mut counter = Counter::new();
    let mut table = WidgetTable::with_capacity(32);
    let label = Label::new(&mut counter, "Hello");
    let (size, _) = layout_root(&mut table, label, bc((0, 20), (30, 50)));
    assert_eq!(size, Size::new(30, 20));
}

#[test]
fn label_text_size_scales_the_label() {
    let mut counter = Counter::new();
    let mut table = WidgetTable::with_capacity(32);
    let label = Label::new(&mut counter, "Hello")
        .with_text_size(KeyOrValue(ScreenFactor::whole(2)))
        .with_text_color(KeyOrValue(Color::black()))
        .with_font(KeyOrValue("other"));
    let (size, _) = layout_root(&mut table, label, bc((0, 0), (255, 255)));
    assert_eq!(size, Size::new(80, 24));
}

#[test]
fn label_of_other_text_sources() {
    let mut counter = Counter::new();
    let mut table = WidgetTable::with_capacity(32);
    let mut text = BoxedText::new();
    text.set(Text::from_str("ab").unwrap());
    let dynamic = Label::dynamic(&mut counter, text);
    let (size, _) = layout_root(&mut table, dynamic, bc((0, 0), (255, 255)));
    assert_eq!(size, Size::new(16, 12));

    let localized =
        Label::from_text(&mut counter, LabelText::Localized(LocalizedString::new("key")));
    let (size, _) = layout_root(&mut table, localized, bc((0, 0), (255, 255)));
    assert_eq!(size, Size::new(13 * 8, 12));

    let mut changed = Label::new(&mut counter, "a");
    changed.set_text(LabelText::Specific(Text::from_str("abc").unwrap()));
    let (size, _) = layout_root(&mut table, changed, bc((0, 0), (255, 255)));
    assert_eq!(size, Size::new(24, 12));
}

fn align_child_rect(table: &WidgetTable<()>, id: u8) -> Rect {
    match table.get(WidgetId(id)) {
        Some(WidgetType::Align(a)) => a.child().layout_rect(),
        _ => panic!("slot {} holds no Align", id),
    }
}

#[test]
fn align_centers_for_every_child_that_fits() {
    for (w, h) in [(0u8, 0u8), (1, 1), (10, 7), (33, 13), (100, 50)] {
        let mut counter = Counter::new();
        let mut table = WidgetTable::with_capacity(32);
        let child = SizedBox::empty(&mut counter).width(w).height(h);
        let align = Align::centered(&mut counter, &mut table, child);
        let (size, _) = layout_root(&mut table, align, bc((0, 0), (100, 50)));
        assert_eq!(size, Size::new(100, 50));
        let rect = align_child_rect(&table, 23);
        assert_eq!(rect.origin(), Point::new((100 - w) / 2, (50 - h) / 2));
        assert_eq!(rect.size(), Size::new(w, h));
    }
}

#[test]
fn align_right_and_left() {
    let mut counter = Counter::new();
    let mut table = WidgetTable::with_capacity(32);
    let child = SizedBox::empty(&mut counter).width(10).height(10);
    let align = Align::right(&mut counter, &mut table, child);
    assert_eq!(align.kind_name(), "Align");
    layout_root(&mut table, align, bc((0, 0), (100, 50)));
    assert_eq!(align_child_rect(&table, 23), Rect::new(90, 20, 100, 30));

    let child = SizedBox::empty(&mut counter).width(10).height(10);
    let align = Align::left(&mut counter, &mut table, child);
    layout_root(&mut table, align, bc((0, 0), (100, 50)));
    assert_eq!(align_child_rect(&table, 25), Rect::new(0, 20, 10, 30));
}

#[test]
fn align_with_another_anchor() {
    let mut counter = Counter::new();
    let mut table = WidgetTable::with_capacity(32);
    let child = SizedBox::empty(&mut counter).width(10).height(10);
    let align = Align::new(&mut counter, &mut table, UnitPoint::bottom_right(), child);
    layout_root(&mut table, align, bc((0, 0), (100, 50)));
    assert_eq!(align_child_rect(&table, 23), Rect::new(90, 40, 100, 50));
}

#[test]
fn align_on_one_axis_keeps_the_other_extent() {
    let mut counter = Counter::new();
    let mut table = WidgetTable::with_capacity(32);
    let child = SizedBox::empty(&mut counter).width(10).height(10);
    let align = Align::horizontal(&mut counter, &mut table, UnitPoint::center(), child);
    let (size, _) = layout_root(&mut table, align, bc((0, 0), (100, 50)));
    assert_eq!(size, Size::new(100, 10));
    assert_eq!(align_child_rect(&table, 23), Rect::new(45, 0, 55, 10));

    let child = SizedBox::empty(&mut counter).width(10).height(10);
    let align = Align::vertical(&mut counter, &mut table, UnitPoint::center(), child);
    let (size, _) = layout_root(&mut table, align, bc((0, 0), (100, 50)));
    assert_eq!(size, Size::new(10, 50));
    assert_eq!(align_child_rect(&table, 25), Rect::new(0, 20, 10, 30));
}

#[test]
fn align_in_unbounded_constraints_takes_the_child_size() {
    let mut counter = Counter::new();
    let mut table = WidgetTable::with_capacity(32);
    let child = SizedBox::empty(&mut counter).width(10).height(10);
    let align = Align::centered(&mut counter, &mut table, child);
    let (size, ctx) = layout_root(&mut table, align, bc((0, 0), (255, 255)));
    assert_eq!(size, Size::new(10, 10));
    assert_eq!(align_child_rect(&table, 23), Rect::new(0, 0, 10, 10));
    assert_eq!(ctx.warning_count(), 0);
}

#[test]
fn align_warns_about_an_unbounded_child() {
    let mut counter = Counter::new();
    let mut table = WidgetTable::with_capacity(32);
    let child = SizedBox::empty(&mut counter).expand_width().height(10);
    let align = Align::centered(&mut counter, &mut table, child);
    let (_, ctx) = layout_root(&mut table, align, bc((0, 0), (255, 50)));
    assert_eq!(ctx.warning_count(), 1);
    assert_eq!(ctx.warning(0), LayoutWarning::InfiniteWidth(WidgetId(23)));

    let child = SizedBox::empty(&mut counter).expand();
    let align = Align::centered(&mut counter, &mut table, child);
    let (_, ctx) = layout_root(&mut table, align, bc((0, 0), (255, 255)));
    assert_eq!(ctx.warning_count(), 2);
    assert_eq!(ctx.warning(0), LayoutWarning::InfiniteWidth(WidgetId(25)));
    assert_eq!(ctx.warning(1), LayoutWarning::InfiniteHeight(WidgetId(25)));
}

fn padding_child_rect(table: &WidgetTable<()>, id: u8) -> Rect {
    match table.get(WidgetId(id)) {
        Some(WidgetType::Padding(p)) => p.child().layout_rect(),
        _ => panic!("slot {} holds no Padding", id),
    }
}

#[test]
fn padding_adds_its_insets_around_the_child() {
    let mut counter = Counter::new();
    let mut table = WidgetTable::with_capacity(32);
    let child = SizedBox::empty(&mut counter).width(40).height(12);
    let padding = Padding::new(&mut counter, &mut table, 1, 2, 3, 4, child);
    assert_eq!(padding.kind_name(), "Padding");
    let (size, _) = layout_root(&mut table, padding, BoxConstraints::unbounded());
    assert_eq!(size, Size::new(40 + 1 + 3, 12 + 2 + 4));
    assert_eq!(padding_child_rect(&table, 23), Rect::new(1, 2, 41, 14));
}

#[test]
fn padding_shrinks_what_the_child_may_take() {
    let mut counter = Counter::new();
    let mut table = WidgetTable::with_capacity(32);
    let child = SizedBox::empty(&mut counter).expand();
    let padding = Padding::uniform(&mut counter, &mut table, 8, child);
    let (size, _) = layout_root(&mut table, padding, bc((0, 0), (100, 50)));
    assert_eq!(size, Size::new(100, 50));
    assert_eq!(padding_child_rect(&table, 23), Rect::new(8, 8, 92, 42));
}

#[test]
fn padding_wider_than_the_constraints_leaves_nothing() {
    let mut counter = Counter::new();
    let mut table = WidgetTable::with_capacity(32);
    let child = SizedBox::empty(&mut counter).expand();
    let padding = Padding::uniform(&mut counter, &mut table, 30, child);
    let (size, _) = layout_root(&mut table, padding, bc((0, 0), (100, 50)));
    assert_eq!(size, Size::new(100, 60));
    assert_eq!(padding_child_rect(&table, 23), Rect::new(30, 30, 70, 30));
}

#[test]
fn sized_box_without_child_takes_its_extents() {
    let mut counter = Counter::new();
    let mut table = WidgetTable::with_capacity(32);
    let b = SizedBox::empty(&mut counter).width(30).height(200);
    assert_eq!(b.kind_name(), "SizedBox");
    let (size, _) = layout_root(&mut table, b, bc((0, 0), (100, 50)));
    assert_eq!(size, Size::new(30, 50));

    let unset: SizedBox<()> = SizedBox::empty(&mut counter);
    let (size, _) = layout_root(&mut table, unset, bc((5, 6), (100, 50)));
    assert_eq!(size, Size::new(5, 6));

    let tall: SizedBox<()> = SizedBox::empty(&mut counter).expand_height();
    let (size, _) = layout_root(&mut table, tall, bc((0, 0), (100, 50)));
    assert_eq!(size, Size::new(0, 50));
}

#[test]
fn sized_box_imposes_its_extent_on_the_child() {
    let mut counter = Counter::new();
    let mut table = WidgetTable::with_capacity(32);
    let label = Label::new(&mut counter, "Hello");
    let b = SizedBox::new(&mut counter, &mut table, label).width(60);
    let (size, _) = layout_root(&mut table, b, bc((0, 0), (100, 50)));
    // The width is fixed; the height is the label's own.
    assert_eq!(size, Size::new(60, 12));
    match table.get(WidgetId(23)) {
        Some(WidgetType::SizedBox(b)) => {
            assert_eq!(b.child().unwrap().layout_rect(), Rect::new(0, 0, 60, 12));
        }
        _ => panic!("slot 23 holds no SizedBox"),
    }
}

#[test]
fn layout_twice_gives_the_same_result() {
    let mut counter = Counter::new();
    let mut table: WidgetTable<()> = WidgetTable::with_capacity(32);
    let label = Label::new(&mut counter, "Hello");
    let align = Align::centered(&mut counter, &mut table, label);
    let mut root = WidgetPod::new(align).boxed(&mut table);
    let bc = bc((0, 0), (100, 50));
    let mut ctx = LayoutCtx::new();
    let first = root.layout(&mut table, &mut ctx, &bc, &(), &Env());
    let rect = align_child_rect(&table, 23);
    let second = root.layout(&mut table, &mut ctx, &bc, &(), &Env());
    assert_eq!(first, second);
    assert_eq!(align_child_rect(&table, 23), rect);
}

#[test]
fn pod_records_the_rect_it_is_given() {
    let mut counter = Counter::new();
    let mut table: WidgetTable<()> = WidgetTable::with_capacity(32);
    let label = Label::new(&mut counter, "Hello");
    let mut pod = WidgetPod::new(label).boxed(&mut table);
    assert_eq!(pod.layout_rect(), Rect::zero());
    assert_eq!(pod.paint_insets(), druid::Insets::zero());
    let mut ctx = LayoutCtx::new();
    pod.set_layout_rect(&mut ctx, &(), &Env(), Rect::new(5, 6, 45, 18));
    assert_eq!(pod.layout_rect(), Rect::new(5, 6, 45, 18));
    assert_eq!(pod.paint_rect(), Rect::new(5, 6, 45, 18));
    assert_eq!(pod.compute_parent_paint_insets(Size::new(40, 10)), druid::Insets::new(0, 0, 5, 8));
    assert_eq!(pod.widget().0, WidgetId(22));
}
