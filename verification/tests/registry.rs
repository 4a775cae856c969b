use druid::bloom::BLOOM_CAPACITY;
use druid::id::{COUNTER_LIMIT, COUNTER_SEED};
use druid::widget::{Label, TableError, WidgetKind, WidgetTable, WidgetType, MAX_WIDGETS};
use druid::{
    Bloom, BoxedWidget, Counter, LifeCycleCtx, Rect, Size, UpdateCtx, Widget, WidgetId,
    WidgetState,
};

#[test]
fn bloom_starts_empty() {
    let bloom = Bloom::new();
    assert_eq!(bloom.len(), 0);
    assert!(!bloom.may_contain(&WidgetId(0)));
}

#[test]
fn bloom_finds_what_was_added_and_nothing_else() {
    let mut bloom = Bloom::new();
    bloom.add(&WidgetId(3));
    bloom.add(&WidgetId(7));
    assert_eq!(bloom.len(), 2);
    assert!(bloom.may_contain(&WidgetId(3)));
    assert!(bloom.may_contain(&WidgetId(7)));
    assert!(!bloom.may_contain(&WidgetId(5)));
    assert!(!bloom.may_contain(&WidgetId(0)));
}

#[test]
fn bloom_keeps_duplicates() {
    let mut bloom = Bloom::new();
    bloom.add(&WidgetId(3));
    bloom.add(&WidgetId(3));
    assert_eq!(bloom.len(), 2);
}

#[test]
fn bloom_drops_what_does_not_fit() {
    let mut bloom = Bloom::new();
    for i in 0..BLOOM_CAPACITY as u8 {
        bloom.add(&WidgetId(i));
    }
    assert_eq!(bloom.len(), BLOOM_CAPACITY);
    bloom.add(&WidgetId(200));
    assert_eq!(bloom.len(), BLOOM_CAPACITY);
    assert!(!bloom.may_contain(&WidgetId(200)));
    assert!(bloom.may_contain(&WidgetId(9)));
}

#[test]
fn bloom_clear_removes_everything() {
    let mut bloom = Bloom::new();
    bloom.add(&WidgetId(3));
    bloom.clear();
    assert_eq!(bloom.len(), 0);
    assert!(!bloom.may_contain(&WidgetId(3)));
}

#[test]
fn bloom_clone_is_independent() {
    let mut bloom = Bloom::new();
    bloom.add(&WidgetId(3));
    let copy = bloom.clone();
    bloom.add(&WidgetId(4));
    assert_eq!(copy.len(), 1);
    assert!(copy.may_contain(&WidgetId(3)));
    assert!(!copy.may_contain(&WidgetId(4)));
}

#[test]
fn bloom_union_adds_what_is_missing() {
    let mut a = Bloom::new();
    a.add(&WidgetId(1));
    a.add(&WidgetId(2));
    let mut b = Bloom::new();
    b.add(&WidgetId(2));
    b.add(&WidgetId(3));
    b.add(&WidgetId(3));
    let u = a.union(b);
    assert_eq!(u.len(), 3);
    for id in [1, 2, 3] {
        assert!(u.may_contain(&WidgetId(id)));
    }
    assert_eq!(a.len(), 2);
}

#[test]
fn bloom_union_stops_when_full() {
    let mut a = Bloom::new();
    for i in 0..9u8 {
        a.add(&WidgetId(i));
    }
    let mut b = Bloom::new();
    b.add(&WidgetId(100));
    b.add(&WidgetId(101));
    let u = a.union(b);
    assert_eq!(u.len(), BLOOM_CAPACITY);
    assert!(u.may_contain(&WidgetId(100)));
    assert!(!u.may_contain(&WidgetId(101)));
}

#[test]
fn counter_starts_at_the_seed_and_counts_up() {
    let mut counter = Counter::new();
    assert_eq!(COUNTER_SEED, 22);
    assert_eq!(counter.next_nonzero(), 22);
    assert_eq!(counter.next_nonzero(), 23);
    assert_eq!(WidgetId::next(&mut counter), WidgetId(24));
    assert_eq!(WidgetId(24).to_raw(), 24);
}

#[test]
fn issued_ids_are_distinct_and_increasing() {
    let mut counter = Counter::new();
    let mut last = None;
    let mut issued = 0;
    while !counter.is_exhausted() {
        let id = counter.next_nonzero();
        if let Some(prev) = last {
            assert!(prev < id);
        }
        last = Some(id);
        issued += 1;
    }
    assert_eq!(issued, 233);
    assert_eq!(last, Some(COUNTER_LIMIT - 1));
}

#[test]
fn exhausted_counter_issues_nothing() {
    let mut counter = Counter::new();
    let mut n = 0;
    while let Some(_) = counter.try_next() {
        n += 1;
    }
    assert_eq!(n, 233);
    assert!(counter.is_exhausted());
    assert_eq!(counter.try_next(), None);
    assert!(counter.is_exhausted());
}

#[test]
fn table_of_default_capacity_is_too_small_for_the_first_id() {
    let mut counter = Counter::new();
    let mut table: WidgetTable<()> = WidgetTable::new();
    assert_eq!(table.capacity(), MAX_WIDGETS);
    let label: Label<()> = Label::new(&mut counter, "x");
    let id = label.id().unwrap();
    assert_eq!(id, WidgetId(22));
    let r = table.try_add_widget(id, label.to_type());
    assert_eq!(r, Err(TableError::Full));
    assert!(!table.is_registered(id));
}

#[test]
fn table_detects_every_id_beyond_its_capacity() {
    let mut counter = Counter::new();
    let mut table: WidgetTable<()> = WidgetTable::with_capacity(25);
    let mut results = Vec::new();
    for _ in 0..5 {
        let label: Label<()> = Label::new(&mut counter, "x");
        let id = label.id().unwrap();
        results.push(table.try_add_widget(id, label.to_type()));
    }
    assert_eq!(
        results,
        vec![Ok(()), Ok(()), Ok(()), Err(TableError::Full), Err(TableError::Full)]
    );
    for id in 22..25 {
        assert!(table.is_registered(WidgetId(id)));
    }
    assert!(!table.is_registered(WidgetId(25)));
    assert!(table.get(WidgetId(25)).is_none());
}

#[test]
fn table_slot_is_written_once() {
    let mut counter = Counter::new();
    let mut table: WidgetTable<()> = WidgetTable::with_capacity(32);
    let label: Label<()> = Label::new(&mut counter, "first");
    let id = label.id().unwrap();
    table.add_widget(id, label.to_type());
    assert_eq!(table.get(id).unwrap().kind(), WidgetKind::Label);

    // A second widget under the same id is refused.
    let mut other_counter = Counter::new();
    let twin: Label<()> = Label::new(&mut other_counter, "second");
    assert_eq!(twin.id(), Some(id));
    assert_eq!(table.try_add_widget(id, twin.to_type()), Err(TableError::Occupied));
    assert_eq!(table.get(id).unwrap().kind(), WidgetKind::Label);
}

#[test]
fn fresh_table_is_empty() {
    let table: WidgetTable<()> = WidgetTable::with_capacity(3);
    assert_eq!(table.capacity(), 3);
    for id in 0..3 {
        assert!(!table.is_registered(WidgetId(id)));
        assert!(table.get(WidgetId(id)).unwrap().is_none());
        assert_eq!(table.get(WidgetId(id)).unwrap().kind(), WidgetKind::Empty);
    }
}

#[test]
fn boxed_widget_holds_the_id() {
    let mut counter = Counter::new();
    let mut table: WidgetTable<()> = WidgetTable::with_capacity(32);
    let label: Label<()> = Label::new(&mut counter, "x");
    let boxed = BoxedWidget::new(&mut table, label);
    assert_eq!(boxed.0, WidgetId(22));
    assert!(boxed.1.is_none());
    assert!(table.is_registered(WidgetId(22)));
    assert_eq!(boxed.id(), Some(WidgetId(22)));
    assert_eq!(boxed.kind_name(), "Unknown");
    assert_eq!(boxed.deref().0, WidgetId(22));
    assert_eq!(boxed.deref_mut().0, WidgetId(22));
    let by_id: BoxedWidget<()> = BoxedWidget::new_by_id(WidgetId(5));
    assert_eq!(by_id.0, WidgetId(5));
    assert!(matches!(by_id.to_type(), WidgetType::Empty));
}

#[test]
fn lifecycle_ctx_registers_children() {
    let mut ctx = LifeCycleCtx::new();
    assert!(!ctx.has_child(&WidgetId(4)));
    ctx.register_child(WidgetId(4));
    assert!(ctx.has_child(&WidgetId(4)));
    assert!(!ctx.has_child(&WidgetId(5)));
}

#[test]
fn update_ctx_requests_layout() {
    let mut ctx = UpdateCtx::new();
    assert!(!ctx.needs_layout());
    ctx.request_layout();
    assert!(ctx.needs_layout());
}

#[test]
fn widget_state_keeps_what_is_set() {
    let mut state = WidgetState::new();
    assert_eq!(state.layout_rect(), Rect::zero());
    assert_eq!(state.size(), Size::zero());
    state.set_layout_rect(Rect::new(10, 10, 30, 40));
    assert_eq!(state.size(), Size::new(20, 30));
    assert_eq!(state.paint_rect(), Rect::new(10, 10, 30, 40));
    state.set_paint_insets(druid::Insets::uniform(2));
    assert_eq!(state.paint_rect(), Rect::new(8, 8, 32, 42));
    // The paint rect reaches 2 beyond a parent of 30 by 40 on the far edges only.
    assert_eq!(
        state.compute_parent_paint_insets(Size::new(30, 40)),
        druid::Insets::new(0, 0, 2, 2)
    );
    state.invalidate(Rect::new(1, 1, 5, 5));
    assert_eq!(state.invalid().to_rect(), Rect::new(1, 1, 5, 5));
    assert!(!state.needs_layout());
    state.request_layout();
    assert!(state.needs_layout());
    state.register_child(WidgetId(9));
    assert!(state.has_child(&WidgetId(9)));
}
