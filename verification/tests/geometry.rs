use marsrawutils_ui::geometry::{clamp_to_coord, midpoint, Point, Rect, Vector};
use marsrawutils_ui::title_bar::{
    button_rect, layout, title_bar_rect, ControlButton, MaximizeAffordance, BUTTON_GLYPH_SIZE,
    BUTTON_MARGIN, BUTTON_WIDTH, SEPARATOR_INSET, SEPARATOR_THICKNESS, TITLE_BAR_HEIGHT,
};

fn rect(x0: i32, y0: i32, x1: i32, y1: i32) -> Rect {
    Rect { min: Point { x: x0, y: y0 }, max: Point { x: x1, y: y1 } }
}

#[test]
fn clamp_keeps_values_in_range_and_cuts_the_rest() {
    assert_eq!(clamp_to_coord(0), 0);
    assert_eq!(clamp_to_coord(-7), -7);
    assert_eq!(clamp_to_coord(i32::MAX as i64), i32::MAX);
    assert_eq!(clamp_to_coord(i32::MAX as i64 + 1), i32::MAX);
    assert_eq!(clamp_to_coord(i32::MIN as i64 - 1), i32::MIN);
    assert_eq!(clamp_to_coord(i64::MAX), i32::MAX);
    assert_eq!(clamp_to_coord(i64::MIN), i32::MIN);
}

#[test]
fn midpoint_rounds_down() {
    assert_eq!(midpoint(0, 10), 5);
    assert_eq!(midpoint(0, 11), 5);
    assert_eq!(midpoint(-11, 0), -6);
    assert_eq!(midpoint(-3, 4), 0);
    assert_eq!(midpoint(-4, 3), -1);
    assert_eq!(midpoint(i32::MAX, i32::MAX), i32::MAX);
    assert_eq!(midpoint(i32::MIN, i32::MIN), i32::MIN);
    assert_eq!(midpoint(i32::MIN, i32::MAX), -1);
}

#[test]
fn zero_vector_has_no_length() {
    assert_eq!(Vector::zero(), Vector { dx: 0, dy: 0 });
}

#[test]
fn contains_takes_the_top_left_edges_and_leaves_the_others() {
    let r = rect(10, 20, 30, 40);
    assert!(r.contains(Point { x: 10, y: 20 }));
    assert!(r.contains(Point { x: 29, y: 39 }));
    assert!(!r.contains(Point { x: 30, y: 39 }));
    assert!(!r.contains(Point { x: 29, y: 40 }));
    assert!(!r.contains(Point { x: 9, y: 20 }));
    assert!(!r.contains(Point { x: 10, y: 19 }));
}

#[test]
fn crossed_edges_make_an_empty_rectangle() {
    assert!(!rect(0, 0, 1, 1).is_empty());
    assert!(rect(0, 0, 0, 5).is_empty());
    assert!(rect(0, 0, 5, 0).is_empty());
    assert!(rect(5, 5, 0, 9).is_empty());
    assert!(!rect(5, 5, 0, 9).contains(Point { x: 3, y: 6 }));
}

#[test]
fn center_is_the_middle_unit() {
    assert_eq!(rect(0, 0, 1920, 24).center(), Point { x: 960, y: 12 });
    assert_eq!(rect(-5, -5, 0, 0).center(), Point { x: -3, y: -3 });
    assert_eq!(rect(3, 3, 4, 4).center(), Point { x: 3, y: 3 });
}

#[test]
fn top_strip_keeps_the_corner_and_has_the_height_asked() {
    let content = rect(7, 11, 1927, 1091);
    let bar = content.top_strip(24);
    assert_eq!(bar.min, content.min);
    assert_eq!(bar.max, Point { x: 1927, y: 35 });
    assert_eq!(bar.max.y - bar.min.y, 24);
}

#[test]
fn top_strip_of_the_full_height_is_the_rectangle() {
    let content = rect(-100, -50, 100, 50);
    assert_eq!(content.top_strip(100), content);
    assert_eq!(content.top_strip(0), rect(-100, -50, 100, -50));
}

#[test]
fn top_strip_may_reach_below_a_low_rectangle() {
    let content = rect(0, 0, 400, 10);
    assert_eq!(content.top_strip(24), rect(0, 0, 400, 24));
}

#[test]
fn top_strip_stops_at_the_end_of_the_coordinate_space() {
    let content = rect(0, i32::MAX - 10, 400, i32::MAX);
    assert_eq!(content.top_strip(24), rect(0, i32::MAX - 10, 400, i32::MAX));
    assert_eq!(rect(0, 5, 1, 6).top_strip(u32::MAX), rect(0, 5, 1, i32::MAX));
}

#[test]
fn title_bar_is_the_top_twenty_four_units() {
    assert_eq!(TITLE_BAR_HEIGHT, 24);
    let content = rect(0, 0, 1920, 1080);
    let bar = title_bar_rect(content);
    assert_eq!(bar, rect(0, 0, 1920, 24));
    assert_eq!(title_bar_rect(rect(3, 4, 403, 104)), rect(3, 4, 403, 28));
}

#[test]
fn layout_constants() {
    assert_eq!(BUTTON_MARGIN, 8);
    assert_eq!(BUTTON_GLYPH_SIZE, 12);
    assert_eq!(BUTTON_WIDTH, 20);
    assert_eq!(SEPARATOR_INSET, 1);
    assert_eq!(SEPARATOR_THICKNESS, 1);
}

#[test]
fn buttons_line_up_from_the_right() {
    let bar = rect(0, 0, 1920, 24);
    assert_eq!(button_rect(bar, ControlButton::Close), rect(1892, 0, 1912, 24));
    assert_eq!(button_rect(bar, ControlButton::MaximizeRestore), rect(1872, 0, 1892, 24));
    assert_eq!(button_rect(bar, ControlButton::Minimize), rect(1852, 0, 1872, 24));
}

#[test]
fn buttons_are_cut_off_at_the_left_edge_of_a_narrow_bar() {
    let bar = rect(100, 0, 130, 24);
    assert_eq!(button_rect(bar, ControlButton::Close), rect(102, 0, 122, 24));
    assert_eq!(button_rect(bar, ControlButton::MaximizeRestore), rect(100, 0, 102, 24));
    let gone = button_rect(bar, ControlButton::Minimize);
    assert_eq!(gone, rect(100, 0, 100, 24));
    assert!(gone.is_empty());
}

#[test]
fn buttons_of_a_bar_narrower_than_the_margin_are_all_empty() {
    let bar = rect(0, 0, 5, 24);
    assert!(button_rect(bar, ControlButton::Close).is_empty());
    assert!(button_rect(bar, ControlButton::MaximizeRestore).is_empty());
    assert!(button_rect(bar, ControlButton::Minimize).is_empty());
    let crossed = rect(10, 0, 0, 24);
    assert_eq!(button_rect(crossed, ControlButton::Close), rect(10, 0, 10, 24));
}

#[test]
fn buttons_at_the_far_left_of_the_coordinate_space() {
    let bar = rect(i32::MIN, 0, i32::MIN + 40, 24);
    assert_eq!(
        button_rect(bar, ControlButton::Close),
        rect(i32::MIN + 12, 0, i32::MIN + 32, 24)
    );
    assert_eq!(
        button_rect(bar, ControlButton::MaximizeRestore),
        rect(i32::MIN, 0, i32::MIN + 12, 24)
    );
    assert!(button_rect(bar, ControlButton::Minimize).is_empty());
}

#[test]
fn layout_places_title_separator_and_buttons() {
    let bar = rect(0, 0, 1920, 24);
    let plan = layout(bar, false);
    assert_eq!(plan.bar, bar);
    assert_eq!(plan.title_anchor, Point { x: 960, y: 12 });
    assert_eq!(plan.separator_from, Point { x: 1, y: 24 });
    assert_eq!(plan.separator_to, Point { x: 1919, y: 24 });
    assert_eq!(plan.close_button, rect(1892, 0, 1912, 24));
    assert_eq!(plan.maximize_button, rect(1872, 0, 1892, 24));
    assert_eq!(plan.minimize_button, rect(1852, 0, 1872, 24));
    assert_eq!(plan.affordance, MaximizeAffordance::Maximize);
}

#[test]
fn separator_ends_stay_in_the_coordinate_space() {
    let bar = rect(i32::MAX, 0, i32::MIN, 24);
    let plan = layout(bar, true);
    assert_eq!(plan.separator_from, Point { x: i32::MAX, y: 24 });
    assert_eq!(plan.separator_to, Point { x: i32::MIN, y: 24 });
}

#[test]
fn middle_button_offers_what_the_window_is_not() {
    assert_eq!(MaximizeAffordance::for_window(false), MaximizeAffordance::Maximize);
    assert_eq!(MaximizeAffordance::for_window(true), MaximizeAffordance::Restore);
    assert!(MaximizeAffordance::Maximize.target());
    assert!(!MaximizeAffordance::Restore.target());
    assert_eq!(layout(rect(0, 0, 400, 24), true).affordance, MaximizeAffordance::Restore);
}

#[test]
fn a_unit_belongs_to_at_most_one_button() {
    let bar = rect(0, 0, 1920, 24);
    let close = button_rect(bar, ControlButton::Close);
    let maximize = button_rect(bar, ControlButton::MaximizeRestore);
    let minimize = button_rect(bar, ControlButton::Minimize);
    for x in 1840..1920 {
        let p = Point { x, y: 12 };
        let hits = [close.contains(p), maximize.contains(p), minimize.contains(p)];
        let count = hits.iter().filter(|hit| **hit).count();
        assert_eq!(count, if (1852..1912).contains(&x) { 1 } else { 0 });
        assert!(!hits[0] || bar.contains(p));
    }
    assert!(close.contains(Point { x: 1892, y: 0 }));
    assert!(maximize.contains(Point { x: 1891, y: 23 }));
    assert!(minimize.contains(Point { x: 1852, y: 23 }));
    assert!(!close.contains(Point { x: 1900, y: 24 }));
}
