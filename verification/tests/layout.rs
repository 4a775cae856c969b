use druid::widget::{Align, Label, Padding, WidgetTable, WidgetType};
use druid::{
    BoxConstraints, Counter, Env, LayoutCtx, Point, Rect, Size, WidgetId, WidgetPod,
};

fn align_of(table: &WidgetTable<()>, id: u8) -> &Align<()> {
    match table.get(WidgetId(id)) {
        Some(WidgetType::Align(a)) => a,
        _ => panic!("slot {} holds no Align", id),
    }
}

fn padding_of(table: &WidgetTable<()>, id: u8) -> &Padding<()> {
    match table.get(WidgetId(id)) {
        Some(WidgetType::Padding(p)) => p,
        _ => panic!("slot {} holds no Padding", id),
    }
}

#[test]
fn padded_centered_label_is_laid_out_end_to_end() {
    let mut counter = Counter::new();
    let mut table: WidgetTable<()> = WidgetTable::with_capacity(32);
    let label = Label::new(&mut counter, "Hello");
    let align = Align::centered(&mut counter, &mut table, label);
    let padding = Padding::uniform(&mut counter, &mut table, 8, align);
    let mut root = WidgetPod::new(padding).boxed(&mut table);
    assert_eq!(root.id(), WidgetId(24));

    let mut ctx = LayoutCtx::new();
    let bc = BoxConstraints::new(Size::new(0, 0), Size::new(100, 50));
    let size = root.layout(&mut table, &mut ctx, &bc, &(), &Env());

    // Padding reports the full size: the aligned area plus 16 on each axis.
    assert_eq!(size, Size::new(100, 50));
    // The label's natural size is 5 characters of 8 by one line of 12.
    let align = align_of(&table, 23);
    let label_rect = align.child().layout_rect();
    assert_eq!(label_rect.size(), Size::new(40, 12));
    // Align centers it in the padded area of 84 by 34.
    assert_eq!(label_rect.origin(), Point::new(22, 11));
    // Padding places the Align behind its leading insets.
    let padding = padding_of(&table, 24);
    assert_eq!(padding.child().layout_rect(), Rect::new(8, 8, 92, 42));
    assert_eq!(ctx.warning_count(), 0);
}
