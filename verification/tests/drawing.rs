use trazo::color::{palette, royal_blue, medium_sea_green, Color};
use trazo::drawing::{
    begin_stroke, clear_all, extend_stroke, on_keyboard, on_pointer_down, on_pointer_draw,
    squared_distance, DrawData, Drawing, Point, PointerButton,
};

fn pt(x: i32, y: i32) -> Point {
    Point { x, y }
}

#[test]
fn squared_distance_exact() {
    assert_eq!(squared_distance(pt(0, 0), pt(3, 4)), 25);
    assert_eq!(squared_distance(pt(-2, 7), pt(-2, 7)), 0);
    assert_eq!(squared_distance(pt(0, 0), pt(5, 5)), 50);
}

#[test]
fn short_drag_rejected_then_long_drag_accepted() {
    // press at (0,0), drag to (5,5): distance about 7.07, under the
    // threshold of 10, so the point is rejected; drag to (20,0): distance
    // 20, accepted, and the curve becomes defined.
    let mut drawings: Vec<Drawing> = Vec::new();
    let h = begin_stroke(&mut drawings, pt(0, 0), royal_blue());
    assert_eq!(h, 0);
    assert_eq!(drawings.len(), 1);
    assert_eq!(drawings[0].points, vec![pt(0, 0)]);
    assert!(drawings[0].curve.is_none());

    extend_stroke(&mut drawings, h, pt(5, 5));
    assert_eq!(drawings[0].points, vec![pt(0, 0)]);
    assert!(drawings[0].curve.is_none());

    extend_stroke(&mut drawings, h, pt(20, 0));
    assert_eq!(drawings[0].points, vec![pt(0, 0), pt(20, 0)]);
    let curve = drawings[0].curve.as_ref().expect("curve defined at two points");
    assert_eq!(curve.knots, vec![pt(0, 0), pt(20, 0)]);
}

#[test]
fn threshold_is_inclusive() {
    // distance exactly 10 is not under the threshold, so the point is kept.
    let mut drawings: Vec<Drawing> = Vec::new();
    let h = begin_stroke(&mut drawings, pt(0, 0), royal_blue());
    extend_stroke(&mut drawings, h, pt(10, 0));
    assert_eq!(drawings[0].points, vec![pt(0, 0), pt(10, 0)]);
    // distance just under 10 (sqrt(98)) is rejected.
    extend_stroke(&mut drawings, h, pt(17, 7));
    assert_eq!(drawings[0].points, vec![pt(0, 0), pt(10, 0)]);
}

#[test]
fn render_sequence_empty_below_two_points() {
    let mut drawings: Vec<Drawing> = Vec::new();
    let h = begin_stroke(&mut drawings, pt(1, 2), royal_blue());
    assert_eq!(drawings[h].render_sequence(), Vec::<Point>::new());
}

#[test]
fn render_sequence_yields_one_sample_per_point() {
    let mut drawings: Vec<Drawing> = Vec::new();
    let h = begin_stroke(&mut drawings, pt(0, 0), royal_blue());
    extend_stroke(&mut drawings, h, pt(20, 0));
    extend_stroke(&mut drawings, h, pt(20, 20));
    let samples = drawings[h].render_sequence();
    assert_eq!(samples.len(), 3);
    assert_eq!(samples, vec![pt(0, 0), pt(20, 0), pt(20, 20)]);
}

#[test]
fn clear_all_empties_any_count() {
    let mut none: Vec<Drawing> = Vec::new();
    clear_all(&mut none);
    assert_eq!(none.len(), 0);

    let mut three: Vec<Drawing> = Vec::new();
    begin_stroke(&mut three, pt(0, 0), royal_blue());
    begin_stroke(&mut three, pt(50, 0), royal_blue());
    begin_stroke(&mut three, pt(0, 50), royal_blue());
    assert_eq!(three.len(), 3);
    clear_all(&mut three);
    assert_eq!(three.len(), 0);
}

#[test]
fn accepted_points_keep_their_spacing() {
    // offer a mix of near and far candidates and check every consecutive
    // pair of recorded points afterwards.
    let mut drawings: Vec<Drawing> = Vec::new();
    let h = begin_stroke(&mut drawings, pt(0, 0), royal_blue());
    let candidates = [
        pt(3, 3),
        pt(12, 0),
        pt(14, 2),
        pt(30, 30),
        pt(30, 31),
        pt(-40, 0),
    ];
    let mut count = drawings[h].points.len();
    for c in candidates {
        extend_stroke(&mut drawings, h, c);
        assert!(drawings[h].points.len() >= count);
        count = drawings[h].points.len();
    }
    let points = &drawings[h].points;
    assert_eq!(points, &vec![pt(0, 0), pt(12, 0), pt(30, 30), pt(-40, 0)]);
    for w in points.windows(2) {
        assert!(squared_distance(w[0], w[1]) >= 100);
    }
}

#[test]
fn primary_press_starts_stroke_with_selected_color() {
    let mut data = DrawData::default();
    let mut drawings: Vec<Drawing> = Vec::new();
    on_pointer_down(&mut data, &mut drawings, PointerButton::Primary, pt(7, -3));
    assert_eq!(drawings.len(), 1);
    assert_eq!(data.current, Some(0));
    assert_eq!(data.line_start, pt(7, -3));
    assert_eq!(drawings[0].points, vec![pt(7, -3)]);
    assert_eq!(drawings[0].color, royal_blue());
}

#[test]
fn secondary_press_clears_everything() {
    let mut data = DrawData::default();
    let mut drawings: Vec<Drawing> = Vec::new();
    on_pointer_down(&mut data, &mut drawings, PointerButton::Primary, pt(0, 0));
    on_pointer_down(&mut data, &mut drawings, PointerButton::Primary, pt(100, 0));
    assert_eq!(drawings.len(), 2);
    on_pointer_down(&mut data, &mut drawings, PointerButton::Secondary, pt(1, 1));
    assert_eq!(drawings.len(), 0);
    assert_eq!(data.current, None);
}

#[test]
fn middle_press_does_nothing() {
    let mut data = DrawData::default();
    let mut drawings: Vec<Drawing> = Vec::new();
    on_pointer_down(&mut data, &mut drawings, PointerButton::Middle, pt(0, 0));
    assert_eq!(drawings.len(), 0);
    assert_eq!(data.current, None);
}

#[test]
fn drag_without_stroke_is_a_no_op() {
    let data = DrawData::default();
    let mut drawings: Vec<Drawing> = Vec::new();
    on_pointer_draw(&data, &mut drawings, pt(50, 50));
    assert_eq!(drawings.len(), 0);
}

#[test]
fn drag_distance_is_mirrored_vertically() {
    // the drag distance is an offset from the stroke's start in screen
    // axes: x adds, y subtracts.
    let mut data = DrawData::default();
    let mut drawings: Vec<Drawing> = Vec::new();
    on_pointer_down(&mut data, &mut drawings, PointerButton::Primary, pt(10, 10));
    on_pointer_draw(&data, &mut drawings, pt(20, 5));
    assert_eq!(drawings[0].points, vec![pt(10, 10), pt(30, 5)]);
}

#[test]
fn keyboard_cycles_the_palette() {
    let mut data = DrawData::default();
    assert_eq!(data.selected_color, 0);
    on_keyboard(&mut data, false);
    assert_eq!(data.selected_color, 0);
    on_keyboard(&mut data, true);
    assert_eq!(data.selected_color, 1);
    on_keyboard(&mut data, true);
    on_keyboard(&mut data, true);
    on_keyboard(&mut data, true);
    assert_eq!(data.selected_color, 0);
}

#[test]
fn cycled_color_is_used_for_the_next_stroke() {
    let mut data = DrawData::default();
    let mut drawings: Vec<Drawing> = Vec::new();
    on_keyboard(&mut data, true);
    on_pointer_down(&mut data, &mut drawings, PointerButton::Primary, pt(0, 0));
    assert_eq!(drawings[0].color, medium_sea_green());
    assert_eq!(drawings[0].color, palette(1));
}

#[test]
fn palette_colors_are_the_css_values() {
    assert_eq!(palette(0), Color { r: 65, g: 105, b: 225 });
    assert_eq!(palette(1), Color { r: 60, g: 179, b: 113 });
    assert_eq!(palette(2), Color { r: 255, g: 215, b: 0 });
    assert_eq!(palette(3), Color { r: 255, g: 99, b: 71 });
}
