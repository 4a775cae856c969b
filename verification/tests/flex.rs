use druid::shares::Shares;
use druid::widget::{
    CrossAxisAlignment, Flex, FlexParams, Label, MainAxisAlignment, SizedBox, WidgetTable,
    WidgetType,
};
use druid::{
    BoxConstraints, Counter, Env, LayoutCtx, LayoutWarning, Rect, Size, WidgetId, WidgetPod,
};

fn flex_of(table: &WidgetTable<()>, id: u8) -> &Flex<()> {
    match table.get(WidgetId(id)) {
        Some(WidgetType::Flex(f)) => f,
        _ => panic!("slot {} holds no Flex", id),
    }
}

fn child_rects(flex: &Flex<()>) -> Vec<Rect> {
    (0..flex.child_count()).map(|i| flex.child(i).pod().layout_rect()).collect()
}

#[test]
fn shares_of_one_and_three_split_the_total() {
    for total in 0..=255u8 {
        let mut shares = Shares::start(total, 4);
        let first = shares.next(1);
        let second = shares.next(3);
        assert_eq!(first as u16 + second as u16, total as u16);
        assert_eq!(first as u16, (total as u16 + 2) / 4);
        assert!((4 * second as i32 - 3 * total as i32).abs() <= 2);
    }
}

#[test]
fn shares_of_a_hundred_are_25_and_75() {
    let mut shares = Shares::start(100, 4);
    assert_eq!(shares.next(1), 25);
    assert_eq!(shares.next(3), 75);
}

#[test]
fn shares_carry_the_rounding_over() {
    // 10 among three equal weights: 3.33 each, rounded 3, 4, 3.
    let mut shares = Shares::start(10, 3);
    let parts = [shares.next(1), shares.next(1), shares.next(1)];
    assert_eq!(parts, [3, 4, 3]);
}

#[test]
fn shares_without_weights_are_zero() {
    let mut shares = Shares::start(50, 0);
    assert_eq!(shares.next(1), 0);
    assert_eq!(shares.next(0), 0);
}

#[test]
fn row_divides_free_space_by_weight() {
    let mut counter = Counter::new();
    let mut table: WidgetTable<()> = WidgetTable::with_capacity(32);
    let a = SizedBox::empty(&mut counter).expand();
    let b = SizedBox::empty(&mut counter).expand();
    let flex = Flex::row(&mut counter)
        .with_flex_child(&mut table, a, FlexParams::new(1, None))
        .with_flex_child(&mut table, b, FlexParams::new(3, None));
    let mut root = WidgetPod::new(flex).boxed(&mut table);

    let mut ctx = LayoutCtx::new();
    let bc = BoxConstraints::new(Size::new(0, 0), Size::new(100, 20));
    let size = root.layout(&mut table, &mut ctx, &bc, &(), &Env());

    assert_eq!(size, Size::new(100, 20));
    let rects = child_rects(flex_of(&table, 24));
    assert_eq!(rects, vec![Rect::new(0, 0, 25, 20), Rect::new(25, 0, 100, 20)]);
    assert_eq!(ctx.warning_count(), 0);
}

#[test]
fn column_measures_fixed_children_first() {
    let mut counter = Counter::new();
    let mut table: WidgetTable<()> = WidgetTable::with_capacity(32);
    let label = Label::new(&mut counter, "Hi");
    let filler = SizedBox::empty(&mut counter).expand();
    let flex = Flex::column(&mut counter)
        .with_child(&mut table, label)
        .with_flex_child(&mut table, filler, FlexParams::new(1, None));
    let mut root = WidgetPod::new(flex).boxed(&mut table);

    let mut ctx = LayoutCtx::new();
    let bc = BoxConstraints::new(Size::new(0, 0), Size::new(60, 50));
    let size = root.layout(&mut table, &mut ctx, &bc, &(), &Env());

    // The label takes 16 by 12; the filler gets the 38 that are left.
    assert_eq!(size, Size::new(60, 50));
    let rects = child_rects(flex_of(&table, 24));
    assert_eq!(rects, vec![Rect::new(0, 0, 16, 12), Rect::new(0, 12, 60, 50)]);
}

fn three_fixed_boxes(main: MainAxisAlignment, cross: CrossAxisAlignment) -> (Size, Vec<Rect>) {
    let mut counter = Counter::new();
    let mut table: WidgetTable<()> = WidgetTable::with_capacity(32);
    let a = SizedBox::empty(&mut counter).width(10).height(4);
    let b = SizedBox::empty(&mut counter).width(20).height(8);
    let c = SizedBox::empty(&mut counter).width(10).height(2);
    let flex = Flex::row(&mut counter)
        .main_axis_alignment(main)
        .cross_axis_alignment(cross)
        .must_fill_main_axis(true)
        .with_child(&mut table, a)
        .with_child(&mut table, b)
        .with_child(&mut table, c);
    let mut root = WidgetPod::new(flex).boxed(&mut table);
    let mut ctx = LayoutCtx::new();
    let bc = BoxConstraints::new(Size::new(0, 0), Size::new(100, 20));
    let size = root.layout(&mut table, &mut ctx, &bc, &(), &Env());
    (size, child_rects(flex_of(&table, 25)))
}

#[test]
fn row_aligned_to_start_packs_children_at_the_front() {
    let (size, rects) = three_fixed_boxes(MainAxisAlignment::Start, CrossAxisAlignment::Start);
    assert_eq!(size, Size::new(100, 8));
    assert_eq!(
        rects,
        vec![Rect::new(0, 0, 10, 4), Rect::new(10, 0, 30, 8), Rect::new(30, 0, 40, 2)]
    );
}

#[test]
fn row_aligned_to_end_packs_children_at_the_back() {
    let (_, rects) = three_fixed_boxes(MainAxisAlignment::End, CrossAxisAlignment::End);
    assert_eq!(
        rects,
        vec![Rect::new(60, 4, 70, 8), Rect::new(70, 0, 90, 8), Rect::new(90, 6, 100, 8)]
    );
}

#[test]
fn row_centered_splits_spare_room_in_two() {
    let (_, rects) = three_fixed_boxes(MainAxisAlignment::Center, CrossAxisAlignment::Center);
    assert_eq!(
        rects,
        vec![Rect::new(30, 2, 40, 6), Rect::new(40, 0, 60, 8), Rect::new(60, 3, 70, 5)]
    );
}

#[test]
fn row_with_space_between_puts_the_room_between_children() {
    let (_, rects) = three_fixed_boxes(MainAxisAlignment::SpaceBetween, CrossAxisAlignment::Start);
    assert_eq!(
        rects,
        vec![Rect::new(0, 0, 10, 4), Rect::new(40, 0, 60, 8), Rect::new(90, 0, 100, 2)]
    );
}

#[test]
fn row_with_space_evenly_puts_equal_gaps_everywhere() {
    let (_, rects) = three_fixed_boxes(MainAxisAlignment::SpaceEvenly, CrossAxisAlignment::Start);
    assert_eq!(
        rects,
        vec![Rect::new(15, 0, 25, 4), Rect::new(40, 0, 60, 8), Rect::new(75, 0, 85, 2)]
    );
}

#[test]
fn row_with_space_around_halves_the_outer_gaps() {
    let (_, rects) = three_fixed_boxes(MainAxisAlignment::SpaceAround, CrossAxisAlignment::Start);
    assert_eq!(
        rects,
        vec![Rect::new(10, 0, 20, 4), Rect::new(40, 0, 60, 8), Rect::new(80, 0, 90, 2)]
    );
}

#[test]
fn flexible_child_in_unbounded_row_is_reported() {
    let mut counter = Counter::new();
    let mut table: WidgetTable<()> = WidgetTable::with_capacity(32);
    let a = SizedBox::empty(&mut counter).width(10).height(4);
    let flex = Flex::row(&mut counter).with_flex_child(&mut table, a, FlexParams::new(1, None));
    let mut root = WidgetPod::new(flex).boxed(&mut table);
    let mut ctx = LayoutCtx::new();
    let bc = BoxConstraints::new(Size::new(0, 0), Size::new(255, 20));
    root.layout(&mut table, &mut ctx, &bc, &(), &Env());
    assert_eq!(ctx.warning_count(), 1);
    assert_eq!(ctx.warning(0), LayoutWarning::UnboundedFlex(WidgetId(23)));
}

#[test]
fn empty_row_reports_its_minimum() {
    let mut counter = Counter::new();
    let mut table: WidgetTable<()> = WidgetTable::with_capacity(32);
    let flex: Flex<()> = Flex::row(&mut counter);
    let mut root = WidgetPod::new(flex).boxed(&mut table);
    let mut ctx = LayoutCtx::new();
    let bc = BoxConstraints::new(Size::new(5, 6), Size::new(100, 20));
    let size = root.layout(&mut table, &mut ctx, &bc, &(), &Env());
    assert_eq!(size, Size::new(0, 6));
}
