use druid::geometry::{max, min, offset_coord};
use druid::{Color, Insets, Line, Point, Rect, ScreenFactor, Size, UnitPoint, Vec2};

#[test]
fn rect_from_origin_size_adds_the_size() {
    let r = Rect::from_origin_size(Point::new(3, 4), Size::new(10, 20));
    assert_eq!(r, Rect::new(3, 4, 13, 24));
}

#[test]
fn rect_from_origin_size_stops_at_the_largest_coordinate() {
    let r = Rect::from_origin_size(Point::new(250, 100), Size::new(10, 200));
    assert_eq!(r, Rect::new(250, 100, 255, 255));
}

#[test]
fn rect_from_points_takes_the_points_as_they_are() {
    assert_eq!(Rect::from_points(Point::new(9, 8), Point::new(1, 2)), Rect::new(9, 8, 1, 2));
}

#[test]
fn rect_with_origin_keeps_the_size() {
    let r = Rect::new(10, 20, 30, 50).with_origin(Point::new(1, 2));
    assert_eq!(r, Rect::new(1, 2, 21, 32));
}

#[test]
fn rect_with_size_keeps_the_origin() {
    let r = Rect::new(10, 20, 30, 50).with_size(Size::new(5, 6));
    assert_eq!(r, Rect::new(10, 20, 15, 26));
}

#[test]
fn rect_extents_of_a_flipped_rect_are_zero() {
    let r = Rect::new(30, 50, 10, 20);
    assert_eq!(r.width(), 0);
    assert_eq!(r.height(), 0);
    assert_eq!(r.size(), Size::zero());
    assert_eq!(r.area(), 0);
}

#[test]
fn rect_extents_and_area() {
    let r = Rect::new(10, 20, 30, 50);
    assert_eq!(r.width(), 20);
    assert_eq!(r.height(), 30);
    assert_eq!(r.size(), Size::new(20, 30));
    assert_eq!(r.area(), 600);
    assert_eq!(r.origin(), Point::new(10, 20));
    assert_eq!(Rect::new(0, 0, 255, 255).area(), 65025);
}

#[test]
fn rect_union_encloses_both() {
    let a = Rect::new(10, 20, 30, 40);
    let b = Rect::new(5, 25, 20, 60);
    assert_eq!(a.union(b), Rect::new(5, 20, 30, 60));
}

#[test]
fn rect_union_with_itself_is_identity() {
    for r in [Rect::new(1, 2, 3, 4), Rect::zero(), Rect::new(9, 9, 2, 2)] {
        assert_eq!(r.union(r), r);
    }
}

#[test]
fn rect_intersect_of_overlapping_rects() {
    let a = Rect::new(10, 20, 30, 40);
    let b = Rect::new(20, 10, 50, 30);
    assert_eq!(a.intersect(b), Rect::new(20, 20, 30, 30));
}

#[test]
fn rect_intersect_of_disjoint_rects_has_no_area() {
    let a = Rect::new(0, 0, 10, 10);
    let b = Rect::new(20, 30, 40, 50);
    let i = a.intersect(b);
    assert_eq!(i, Rect::new(20, 30, 20, 30));
    assert_eq!(i.area(), 0);
    assert!(i.x1 >= i.x0 && i.y1 >= i.y0);
}

#[test]
fn rect_intersect_never_has_negative_extent() {
    let rects = [
        Rect::new(0, 0, 10, 10),
        Rect::new(5, 5, 7, 200),
        Rect::new(200, 100, 100, 50),
        Rect::new(255, 255, 0, 0),
        Rect::zero(),
    ];
    for a in rects {
        for b in rects {
            let i = a.intersect(b);
            assert!(i.x1 >= i.x0 && i.y1 >= i.y0);
        }
    }
}

#[test]
fn rect_winding_is_one_inside_and_zero_outside() {
    let r = Rect::new(10, 10, 20, 20);
    assert_eq!(r.winding(Point::new(10, 10)), 1);
    assert_eq!(r.winding(Point::new(19, 19)), 1);
    assert_eq!(r.winding(Point::new(20, 15)), 0);
    assert_eq!(r.winding(Point::new(9, 15)), 0);
}

#[test]
fn rect_winding_of_a_flipped_rect_is_negative() {
    let flipped = Rect::new(20, 10, 10, 20);
    assert_eq!(flipped.winding(Point::new(15, 15)), -1);
    let twice = Rect::new(20, 20, 10, 10);
    assert_eq!(twice.winding(Point::new(15, 15)), 1);
}

#[test]
fn rect_inset_grows_and_stops_at_zero() {
    assert_eq!(Rect::new(0, 0, 10, 10).inset(Insets::uniform(2)), Rect::new(0, 0, 12, 12));
    assert_eq!(Rect::new(10, 10, 20, 20).inset(Insets::uniform(2)), Rect::new(8, 8, 22, 22));
    assert_eq!(Rect::new(10, 10, 20, 20).inset(Insets::uniform(-3)), Rect::new(13, 13, 17, 17));
    assert_eq!(
        Rect::new(10, 10, 250, 250).inset(Insets::new(1, 2, 30, 4)),
        Rect::new(9, 8, 255, 254)
    );
}

#[test]
fn rect_minus_rect_gives_signed_insets() {
    let outer = Rect::new(0, 0, 10, 10);
    let inner = Rect::new(2, 3, 8, 9);
    assert_eq!(outer - inner, Insets::new(2, 3, 2, 1));
    assert_eq!(inner - outer, Insets::new(-2, -3, -2, -1));
    assert_eq!(inner + (outer - inner), outer);
    assert_eq!((outer - inner) + inner, outer);
}

#[test]
fn rect_moves_by_a_vector() {
    let r = Rect::new(10, 20, 30, 40);
    assert_eq!(r + Vec2 { x: 5, y: 6 }, Rect::new(15, 26, 35, 46));
    assert_eq!(r - Vec2 { x: 5, y: 6 }, Rect::new(5, 14, 25, 34));
    assert_eq!(r - Vec2 { x: 20, y: 30 }, Rect::new(0, 0, 10, 10));
    assert_eq!(r + Vec2 { x: 250, y: 0 }, Rect::new(255, 20, 255, 40));
}

#[test]
fn point_and_vector_differences_stop_at_zero() {
    assert_eq!(Point::new(10, 5) - Vec2 { x: 3, y: 9 }, Point::new(7, 0));
    assert_eq!(Vec2 { x: 10, y: 5 } - Vec2 { x: 3, y: 9 }, Vec2 { x: 7, y: 0 });
    assert_eq!(Point::new(4, 5).to_vec2(), Vec2 { x: 4, y: 5 });
    assert_eq!(Vec2 { x: 4, y: 5 }.to_point(), Point::new(4, 5));
    assert_eq!(Vec2 { x: 200, y: 5 }.plus(Vec2 { x: 100, y: 5 }), Vec2 { x: 255, y: 10 });
}

#[test]
fn zero_values_and_defaults_agree() {
    assert_eq!(Point::origin(), Point::default());
    assert_eq!(Size::zero(), Size::default());
    assert_eq!(Vec2::zero(), Vec2::default());
    assert_eq!(Rect::zero(), Rect::default());
    assert_eq!(Insets::zero(), Insets::default());
    assert_eq!(Rect::zero(), Rect::new(0, 0, 0, 0));
}

#[test]
fn size_clamp_raises_then_lowers() {
    let this = Size::new(0, 100);
    assert_eq!(this.clamp(Size::new(10, 10), Size::new(50, 50)), Size::new(10, 50));
    // An inverted range gives the maximum.
    assert_eq!(this.clamp(Size::new(60, 60), Size::new(50, 50)), Size::new(50, 50));
    assert_eq!(this.expand(), this);
    assert_eq!(Size::from((3, 4)), Size::new(3, 4));
}

#[test]
fn coordinate_helpers() {
    assert_eq!(min(3, 9), 3);
    assert_eq!(max(3, 9), 9);
    assert_eq!(offset_coord(10, -20), 0);
    assert_eq!(offset_coord(10, 20), 30);
    assert_eq!(offset_coord(250, 20), 255);
    assert_eq!(offset_coord(255, i16::MIN), 0);
}

#[test]
fn colors_and_lines_are_plain_values() {
    assert_eq!(Color::black(), Color::Rgba32(0));
    assert_eq!(Color::white(), Color::Rgba32(0xffffff));
    let l = Line { p0: Point::new(1, 2), p1: Point::new(3, 4) };
    assert_eq!(l, l);
}

#[test]
fn factor_scales_and_rounds_down() {
    assert_eq!(ScreenFactor::new(1, 2).scale(63), 31);
    assert_eq!(ScreenFactor::new(6, 5).scale(10), 12);
    assert_eq!(ScreenFactor::new(3, 1).scale(100), 255);
    assert_eq!(ScreenFactor::whole(2).scale(100), 200);
    assert_eq!(ScreenFactor::one().scale(77), 77);
    // A denominator of zero counts as one.
    assert_eq!(ScreenFactor::new(2, 0).scale(7), 14);
    assert_eq!(ScreenFactor::new(0, 0).scale(7), 0);
}

#[test]
fn unit_point_resolves_inside_a_rect() {
    let r = Rect::new(10, 20, 30, 51);
    assert_eq!(UnitPoint::top_left().resolve(r), Point::new(10, 20));
    assert_eq!(UnitPoint::top().resolve(r), Point::new(20, 20));
    assert_eq!(UnitPoint::top_right().resolve(r), Point::new(30, 20));
    assert_eq!(UnitPoint::left().resolve(r), Point::new(10, 35));
    assert_eq!(UnitPoint::center().resolve(r), Point::new(20, 35));
    assert_eq!(UnitPoint::right().resolve(r), Point::new(30, 35));
    assert_eq!(UnitPoint::bottom_left().resolve(r), Point::new(10, 51));
    assert_eq!(UnitPoint::bottom().resolve(r), Point::new(20, 51));
    assert_eq!(UnitPoint::bottom_right().resolve(r), Point::new(30, 51));
    let third = UnitPoint::new(ScreenFactor::new(1, 3), ScreenFactor::new(2, 3));
    assert_eq!(third.resolve(Rect::new(0, 0, 30, 30)), Point::new(10, 20));
}
