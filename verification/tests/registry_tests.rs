use canvas_registry::canvas::{Canvas, Region};
use canvas_registry::registry::Registry;
use canvas_registry::visible::{Broom, Visible};

#[test]
fn broomstick_range_endpoints() {
    let broom = Broom::new(2, 10, 1, 3);
    let range = broom.broomstick_range();
    assert_eq!(range.start, 6);
    assert_eq!(range.end, 10);
}

#[test]
fn scenario_four_mutation_calls() {
    // Canvas(width=10, height=5), Broom(x=2, y=10, width=1, height=3):
    // draw range is [10-3-1, 10) = [6, 10), so exactly 4 mutation calls.
    let mut canvas = Canvas::new(10, 5);
    let broom = Broom::new(2, 10, 1, 3);
    let mut registry: Registry<Broom> = Registry::new();
    registry.add(broom);
    registry.draw_all(&mut canvas);
    assert_eq!(canvas.mutation_count(), 4);
    assert_eq!(canvas.recorded(0), Region { x: 2, y: 6 });
    assert_eq!(canvas.recorded(1), Region { x: 2, y: 7 });
    assert_eq!(canvas.recorded(2), Region { x: 2, y: 8 });
    assert_eq!(canvas.recorded(3), Region { x: 2, y: 9 });
}

#[test]
fn out_of_bounds_rows_are_clipped() {
    // The same scenario's rows 6..10 lie outside a canvas of height 5, so
    // the calls are recorded but no cell is visually affected.
    let mut canvas = Canvas::new(10, 5);
    let broom = Broom::new(2, 10, 1, 3);
    broom.draw(&mut canvas);
    assert_eq!(canvas.mutation_count(), 4);
    for y in 0..5 {
        assert!(!canvas.is_marked(2, y));
    }
    assert!(!canvas.is_marked(2, 6));
}

#[test]
fn in_bounds_rows_are_marked() {
    let mut canvas = Canvas::new(10, 5);
    let broom = Broom::new(2, 4, 1, 3);
    broom.draw(&mut canvas);
    assert_eq!(canvas.mutation_count(), 4);
    assert!(canvas.is_marked(2, 0));
    assert!(canvas.is_marked(2, 1));
    assert!(canvas.is_marked(2, 2));
    assert!(canvas.is_marked(2, 3));
    assert!(!canvas.is_marked(2, 4));
    assert!(!canvas.is_marked(3, 0));
}

#[test]
fn empty_range_draws_nothing() {
    // height + 1 > y: the broomstick span would start above row zero, so
    // the broom performs zero mutations.
    let mut canvas = Canvas::new(10, 5);
    let broom = Broom::new(0, 2, 0, 3);
    broom.draw(&mut canvas);
    assert_eq!(canvas.mutation_count(), 0);
}

#[test]
fn negative_height_draws_nothing() {
    let mut canvas = Canvas::new(10, 5);
    let broom = Broom::new(0, 10, 0, -2);
    broom.draw(&mut canvas);
    assert_eq!(canvas.mutation_count(), 0);
}

#[test]
fn hit_test_scenario() {
    // Broom(width=1, height=3): hit_test(5,5) is `1 < 5 && 3 < 5`, true.
    let broom = Broom::new(2, 10, 1, 3);
    assert!(broom.hit_test(5, 5));
}

#[test]
fn hit_test_axis_inversion_quirk() {
    // The x comparison is bound to `height` and the y comparison to
    // `width`, so the two arguments are not interchangeable.
    let broom = Broom::new(0, 0, 1, 3);
    assert!(broom.hit_test(4, 2)); // 1 < 2 && 3 < 4
    assert!(!broom.hit_test(2, 4)); // 1 < 4 but !(3 < 2)
    assert!(!broom.hit_test(3, 5)); // boundary: !(3 < 3)
    assert!(!broom.hit_test(5, 1)); // boundary: !(1 < 1)
}

#[test]
fn draw_order_is_insertion_order() {
    let mut canvas = Canvas::new(20, 20);
    let first = Broom::new(1, 3, 0, 1);
    let second = Broom::new(7, 4, 0, 2);
    let mut registry: Registry<Broom> = Registry::new();
    registry.add(first);
    registry.add(second);
    registry.draw_all(&mut canvas);
    // first contributes rows [1, 3), then second contributes rows [1, 4)
    assert_eq!(canvas.mutation_count(), 5);
    assert_eq!(canvas.recorded(0), Region { x: 1, y: 1 });
    assert_eq!(canvas.recorded(1), Region { x: 1, y: 2 });
    assert_eq!(canvas.recorded(2), Region { x: 7, y: 1 });
    assert_eq!(canvas.recorded(3), Region { x: 7, y: 2 });
    assert_eq!(canvas.recorded(4), Region { x: 7, y: 3 });
}

#[test]
fn first_match_wins() {
    // Two overlapping entities A then B where both match: the result is A.
    let a = Broom::new(0, 0, 1, 3);
    let b = Broom::new(9, 9, 1, 3);
    assert!(a.hit_test(5, 5));
    assert!(b.hit_test(5, 5));
    let mut registry: Registry<Broom> = Registry::new();
    registry.add(a);
    registry.add(b);
    assert_eq!(registry.hit_test_at(5, 5), Some(&a));
}

#[test]
fn later_match_found_when_earlier_misses() {
    let a = Broom::new(0, 0, 6, 6);
    let b = Broom::new(9, 9, 1, 3);
    let mut registry: Registry<Broom> = Registry::new();
    registry.add(a);
    registry.add(b);
    assert!(!a.hit_test(5, 5));
    assert_eq!(registry.hit_test_at(5, 5), Some(&b));
}

#[test]
fn hit_test_at_empty_registry() {
    let registry: Registry<Broom> = Registry::new();
    assert_eq!(registry.hit_test_at(5, 5), None);
    assert_eq!(registry.len(), 0);
}

#[test]
fn hit_test_at_no_match() {
    let mut registry: Registry<Broom> = Registry::new();
    registry.add(Broom::new(0, 0, 6, 6));
    registry.add(Broom::new(1, 1, 9, 9));
    assert_eq!(registry.hit_test_at(5, 5), None);
}

#[test]
fn min_prefers_smaller_then_first() {
    assert_eq!(canvas_registry::min(5, 4), 4);
    assert_eq!(canvas_registry::min(4, 5), 4);
    assert_eq!(canvas_registry::min(-3i32, 3i32), -3);
    assert_eq!(canvas_registry::min(7u64, 7u64), 7);
    assert_eq!(
        canvas_registry::min(String::from("apple"), String::from("pear")),
        "apple"
    );
}
