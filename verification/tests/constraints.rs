use druid::{BoxConstraints, Rect, Region, Size, Vec2};

#[test]
fn constrain_clamps_into_the_range() {
    let bc = BoxConstraints::new(Size::new(10, 20), Size::new(50, 60));
    assert_eq!(bc.constrain(Size::new(0, 0)), Size::new(10, 20));
    assert_eq!(bc.constrain(Size::new(100, 100)), Size::new(50, 60));
    assert_eq!(bc.constrain(Size::new(5, 100)), Size::new(10, 60));
}

#[test]
fn constrain_keeps_a_size_in_range() {
    let bc = BoxConstraints::new(Size::new(10, 20), Size::new(50, 60));
    for w in 10..=50u8 {
        for h in 20..=60u8 {
            assert_eq!(bc.constrain(Size::new(w, h)), Size::new(w, h));
        }
    }
}

#[test]
fn constrain_result_is_always_within_valid_constraints() {
    let bc = BoxConstraints::new(Size::new(10, 20), Size::new(50, 60));
    for w in (0..=255u8).step_by(5) {
        for h in (0..=255u8).step_by(5) {
            let s = bc.constrain(Size::new(w, h));
            assert!(10 <= s.width && s.width <= 50);
            assert!(20 <= s.height && s.height <= 60);
        }
    }
}

#[test]
fn loosen_drops_the_minimum() {
    let bc = BoxConstraints::new(Size::new(10, 20), Size::new(50, 60));
    let loose = bc.loosen();
    assert_eq!(loose.min(), Size::zero());
    assert_eq!(loose.max(), Size::new(50, 60));
}

#[test]
fn tight_admits_one_size() {
    let bc = BoxConstraints::tight(Size::new(7, 9));
    assert_eq!(bc.min(), Size::new(7, 9));
    assert_eq!(bc.max(), Size::new(7, 9));
    assert_eq!(bc.constrain(Size::new(100, 0)), Size::new(7, 9));
}

#[test]
fn boundedness_looks_at_the_maximum() {
    let bc = BoxConstraints::new(Size::zero(), Size::new(255, 60));
    assert!(!bc.is_width_bounded());
    assert!(bc.is_height_bounded());
    let free = BoxConstraints::unbounded();
    assert!(!free.is_width_bounded());
    assert!(!free.is_height_bounded());
    assert_eq!(free.min(), Size::zero());
}

#[test]
fn debug_check_finds_inverted_constraints() {
    assert!(BoxConstraints::new(Size::new(10, 20), Size::new(50, 60)).debug_check());
    assert!(BoxConstraints::new(Size::new(10, 20), Size::new(10, 20)).debug_check());
    assert!(!BoxConstraints::new(Size::new(51, 20), Size::new(50, 60)).debug_check());
    assert!(!BoxConstraints::new(Size::new(10, 61), Size::new(50, 60)).debug_check());
}

#[test]
fn shrink_subtracts_and_stops_at_zero() {
    let bc = BoxConstraints::new(Size::new(10, 20), Size::new(100, 50));
    let s = bc.shrink(Size::new(16, 30));
    assert_eq!(s.min(), Size::new(0, 0));
    assert_eq!(s.max(), Size::new(84, 20));
}

#[test]
fn shrink_keeps_an_unbounded_axis_unbounded() {
    let bc = BoxConstraints::new(Size::zero(), Size::new(255, 50));
    let s = bc.shrink(Size::new(16, 16));
    assert_eq!(s.max(), Size::new(255, 34));
    assert!(!s.is_width_bounded());
}

#[test]
fn region_takes_the_first_rect_and_then_unions() {
    let mut region = Region::empty();
    assert!(region.is_empty());
    region.add_rect(Rect::new(10, 10, 20, 20));
    assert_eq!(region.to_rect(), Rect::new(10, 10, 20, 20));
    region.add_rect(Rect::new(30, 5, 40, 15));
    assert_eq!(region.to_rect(), Rect::new(10, 5, 40, 20));
    assert!(!region.is_empty());
}

#[test]
fn region_ignores_empty_rects() {
    let mut region = Region::from_rect(Rect::new(10, 10, 20, 20));
    region.add_rect(Rect::new(0, 0, 0, 50));
    assert_eq!(region.to_rect(), Rect::new(10, 10, 20, 20));
    region.add_rect(Rect::new(50, 50, 40, 60));
    assert_eq!(region.to_rect(), Rect::new(10, 10, 20, 20));
    // An empty region stays as it is, too.
    let mut empty = Region::from_rect(Rect::new(3, 3, 3, 9));
    empty.add_rect(Rect::new(7, 7, 7, 7));
    assert_eq!(empty.to_rect(), Rect::new(3, 3, 3, 9));
}

#[test]
fn region_add_of_a_covered_rect_changes_nothing() {
    let mut region = Region::from_rect(Rect::new(10, 10, 50, 50));
    for rect in [Rect::new(10, 10, 50, 50), Rect::new(20, 20, 30, 30), Rect::new(10, 40, 50, 50)] {
        region.add_rect(rect);
        assert_eq!(region.to_rect(), Rect::new(10, 10, 50, 50));
    }
}

#[test]
fn region_add_twice_is_the_same_as_once() {
    let mut once = Region::from_rect(Rect::new(10, 10, 20, 20));
    once.add_rect(Rect::new(0, 15, 5, 30));
    let mut twice = once;
    twice.add_rect(Rect::new(0, 15, 5, 30));
    assert_eq!(once, twice);
}

#[test]
fn region_intersects_only_with_an_overlap_of_area() {
    let region = Region::from_rect(Rect::new(10, 10, 20, 20));
    assert!(region.intersects(Rect::new(15, 15, 30, 30)));
    assert!(!region.intersects(Rect::new(20, 10, 30, 20)));
    assert!(!region.intersects(Rect::new(30, 30, 40, 40)));
    assert!(!Region::empty().intersects(Rect::new(0, 0, 255, 255)));
}

#[test]
fn region_merge_intersect_and_translate() {
    let mut region = Region::from_rect(Rect::new(10, 10, 20, 20));
    region.merge_with(Region::from_rect(Rect::new(15, 15, 40, 40)));
    assert_eq!(region.to_rect(), Rect::new(10, 10, 40, 40));
    region.merge_with(Region::empty());
    assert_eq!(region.to_rect(), Rect::new(10, 10, 40, 40));
    region.intersect_with(Rect::new(0, 0, 25, 100));
    assert_eq!(region.to_rect(), Rect::new(10, 10, 25, 40));
    region.translate(Vec2 { x: 5, y: 250 });
    assert_eq!(region.to_rect(), Rect::new(15, 255, 30, 255));
    let mut moved = Region::from_rect(Rect::new(1, 2, 3, 4));
    moved += Vec2 { x: 10, y: 20 };
    assert_eq!(moved.to_rect(), Rect::new(11, 22, 13, 24));
    assert_eq!(Region::from(Rect::new(1, 2, 3, 4)).to_rect(), Rect::new(1, 2, 3, 4));
}
