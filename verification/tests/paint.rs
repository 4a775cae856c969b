use druid::widget::{Align, Flex, Label, Padding, SizedBox, WidgetTable};
use druid::{
    BoxConstraints, Counter, Env, Event, EventCtx, LayoutCtx, LifeCycle, LifeCycleCtx, PaintCtx,
    PaintOp, Piet, Point, Rect, Region, Size, UpdateCtx, Vec2, WidgetId, WidgetPod,
};

fn ops_of(ctx: &PaintCtx) -> Vec<PaintOp> {
    let piet = ctx.render_ctx();
    (0..piet.op_count()).map(|i| piet.op(i)).collect()
}

#[test]
fn label_is_painted_at_the_sum_of_all_offsets() {
    let mut counter = Counter::new();
    let mut table: WidgetTable<()> = WidgetTable::with_capacity(32);
    let label = Label::new(&mut counter, "Hello");
    let align = Align::centered(&mut counter, &mut table, label);
    let padding = Padding::uniform(&mut counter, &mut table, 8, align);
    let mut root = WidgetPod::new(padding).boxed(&mut table);

    let mut layout_ctx = LayoutCtx::new();
    let bc = BoxConstraints::new(Size::new(0, 0), Size::new(100, 50));
    let size = root.layout(&mut table, &mut layout_ctx, &bc, &(), &Env());
    root.set_layout_rect(
        &mut layout_ctx,
        &(),
        &Env(),
        Rect::from_origin_size(Point::origin(), size),
    );

    let mut ctx = PaintCtx::new(Region::from_rect(Rect::new(0, 0, 100, 50)));
    root.paint(&mut table, &mut ctx, &(), &Env());

    // Padding inset (8, 8) plus the Align origin (22, 11).
    assert_eq!(
        ops_of(&ctx),
        vec![PaintOp { id: WidgetId(22), rect: Rect::new(30, 19, 70, 31) }]
    );
    assert_eq!(ctx.depth(), 0);
    assert_eq!(ctx.region().to_rect(), Rect::new(0, 0, 100, 50));
}

#[test]
fn widget_outside_of_the_region_is_not_painted() {
    let mut counter = Counter::new();
    let mut table: WidgetTable<()> = WidgetTable::with_capacity(32);
    let a = Label::new(&mut counter, "ab");
    let b = Label::new(&mut counter, "cd");
    let flex = Flex::row(&mut counter).with_child(&mut table, a).with_child(&mut table, b);
    let mut root = WidgetPod::new(flex).boxed(&mut table);

    let mut layout_ctx = LayoutCtx::new();
    let bc = BoxConstraints::new(Size::new(0, 0), Size::new(100, 50));
    let size = root.layout(&mut table, &mut layout_ctx, &bc, &(), &Env());
    assert_eq!(size, Size::new(32, 12));
    root.set_layout_rect(
        &mut layout_ctx,
        &(),
        &Env(),
        Rect::from_origin_size(Point::origin(), size),
    );

    // Everything is visible: both labels are painted, in order.
    let mut ctx = PaintCtx::new(Region::from_rect(Rect::new(0, 0, 100, 50)));
    root.paint(&mut table, &mut ctx, &(), &Env());
    assert_eq!(
        ops_of(&ctx),
        vec![
            PaintOp { id: WidgetId(22), rect: Rect::new(0, 0, 16, 12) },
            PaintOp { id: WidgetId(23), rect: Rect::new(16, 0, 32, 12) },
        ]
    );

    // Only the second label lies in the region.
    let mut ctx = PaintCtx::new(Region::from_rect(Rect::new(20, 0, 30, 5)));
    root.paint(&mut table, &mut ctx, &(), &Env());
    assert_eq!(ops_of(&ctx), vec![PaintOp { id: WidgetId(23), rect: Rect::new(16, 0, 32, 12) }]);

    // Nothing lies in an empty region.
    let mut ctx = PaintCtx::new(Region::empty());
    root.paint(&mut table, &mut ctx, &(), &Env());
    assert_eq!(ops_of(&ctx), vec![]);
}

#[test]
fn piet_restores_what_it_saved() {
    let mut piet = Piet::new();
    assert_eq!(piet.restore().unwrap_err().as_str(), "unbalanced restore");
    assert!(piet.save().is_ok());
    piet.translate(Vec2 { x: 5, y: 7 });
    piet.draw(WidgetId(1), Size::new(3, 4));
    assert!(piet.restore().is_ok());
    piet.draw(WidgetId(2), Size::new(1, 1));
    assert_eq!(piet.op_count(), 2);
    assert_eq!(piet.op(0), PaintOp { id: WidgetId(1), rect: Rect::new(5, 7, 8, 11) });
    assert_eq!(piet.op(1), PaintOp { id: WidgetId(2), rect: Rect::new(0, 0, 1, 1) });
    assert!(piet.restore().is_err());
}

#[test]
fn forwarding_passes_leave_the_layout_alone() {
    let mut counter = Counter::new();
    let mut table: WidgetTable<u32> = WidgetTable::with_capacity(32);
    let label = Label::new(&mut counter, "x");
    let boxed = SizedBox::new(&mut counter, &mut table, label).width(30);
    let flex = Flex::column(&mut counter).with_child(&mut table, boxed);
    let mut root = WidgetPod::new(flex).boxed(&mut table);

    let mut layout_ctx = LayoutCtx::new();
    let bc = BoxConstraints::new(Size::new(0, 0), Size::new(100, 50));
    let mut data: u32 = 7;
    let size = root.layout(&mut table, &mut layout_ctx, &bc, &data, &Env());
    assert_eq!(size, Size::new(30, 12));

    root.event(&mut table, &mut EventCtx(), &Event::WindowConnected, &mut data, &Env());
    let mut lc = LifeCycleCtx::new();
    root.lifecycle(&mut table, &mut lc, &LifeCycle::WidgetAdded, &data, &Env());
    let mut uc = UpdateCtx::new();
    root.update(&mut table, &mut uc, &data, &Env());
    assert_eq!(data, 7);
    assert!(!uc.needs_layout());

    let mut again = LayoutCtx::new();
    assert_eq!(root.layout(&mut table, &mut again, &bc, &data, &Env()), size);
}

#[test]
fn with_save_restores_the_surface_after_the_closure() {
    let mut ctx = PaintCtx::new(Region::from_rect(Rect::new(0, 0, 100, 50)));
    ctx.translate(Vec2 { x: 3, y: 4 });
    ctx.with_save(|c| {
        c.translate(Vec2 { x: 10, y: 20 });
        c.draw(WidgetId(1));
    });
    ctx.draw(WidgetId(2));
    assert_eq!(
        ops_of(&ctx),
        vec![
            PaintOp { id: WidgetId(1), rect: Rect::new(13, 24, 13, 24) },
            PaintOp { id: WidgetId(2), rect: Rect::new(3, 4, 3, 4) },
        ]
    );
    // Nothing is left to restore.
    assert!(ctx.restore().is_err());
}

#[test]
fn with_save_keeps_what_an_unbalanced_closure_leaves() {
    let mut ctx = PaintCtx::new(Region::empty());
    ctx.with_save(|c| {
        c.translate(Vec2 { x: 10, y: 20 });
        // The closure restores what was saved for it ...
        assert!(c.restore().is_ok());
        c.translate(Vec2 { x: 1, y: 1 });
    });
    // ... so the restore after it finds nothing and changes nothing.
    ctx.draw(WidgetId(7));
    assert_eq!(ops_of(&ctx), vec![PaintOp { id: WidgetId(7), rect: Rect::new(1, 1, 1, 1) }]);
}

#[test]
fn with_child_ctx_narrows_the_region_for_the_closure_only() {
    let mut ctx = PaintCtx::new(Region::from_rect(Rect::new(0, 0, 100, 50)));
    let mut seen = None;
    ctx.with_child_ctx(Region::from_rect(Rect::new(5, 5, 20, 20)), |c| {
        seen = Some((c.region().to_rect(), c.depth()));
        c.draw(WidgetId(3));
    });
    assert_eq!(seen, Some((Rect::new(5, 5, 20, 20), 1)));
    assert_eq!(ctx.region().to_rect(), Rect::new(0, 0, 100, 50));
    assert_eq!(ctx.depth(), 0);
    assert_eq!(ops_of(&ctx), vec![PaintOp { id: WidgetId(3), rect: Rect::zero() }]);
}
