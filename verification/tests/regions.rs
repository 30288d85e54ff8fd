use egui_wlr_layer::geometry::Rect;
use egui_wlr_layer::region::{AreaInfo, InputRegion, InputRegions, Order};

fn area(order: Order, x: i32, y: i32, width: i32, height: i32) -> AreaInfo {
    AreaInfo { order, visible: true, position: Some((x, y)), size: Some((width, height)) }
}

fn accepts(region: &InputRegion, x: i32, y: i32) -> bool {
    match region {
        InputRegion::Unrestricted => true,
        InputRegion::Rects(rects) => rects.iter().any(|rect| rect.contains(x, y)),
    }
}

#[test]
fn default_policy_is_full() {
    assert_eq!(InputRegions::default(), InputRegions::Full);
}

#[test]
fn full_policy_is_unrestricted() {
    assert_eq!(InputRegions::Full.region(&Vec::new()), InputRegion::Unrestricted);
    let areas = vec![area(Order::Middle, 0, 0, 10, 10), area(Order::Background, 0, 0, 99, 99)];
    assert_eq!(InputRegions::Full.region(&areas), InputRegion::Unrestricted);
    assert_eq!(InputRegions::Full.initial_region(), InputRegion::Unrestricted);
}

#[test]
fn empty_policy_accepts_nothing() {
    let nothing = InputRegion::Rects(vec![Rect::new(0, 0, 0, 0)]);
    assert_eq!(InputRegions::Empty.region(&Vec::new()), nothing);
    let areas = vec![area(Order::Middle, 0, 0, 10, 10), area(Order::Foreground, -5, -5, 99, 99)];
    let region = InputRegions::Empty.region(&areas);
    assert_eq!(region, nothing);
    assert_eq!(InputRegions::Empty.initial_region(), nothing);
    for (x, y) in [(0, 0), (1, 1), (-1, -1), (5, 5), (i32::MAX, i32::MIN)] {
        assert!(!accepts(&region, x, y));
    }
}

#[test]
fn windows_only_starts_with_nothing() {
    assert_eq!(
        InputRegions::WindowsOnly.initial_region(),
        InputRegion::Rects(vec![Rect::new(0, 0, 0, 0)])
    );
}

#[test]
fn windows_only_with_no_area() {
    let region = InputRegions::WindowsOnly.region(&Vec::new());
    assert_eq!(region, InputRegion::Rects(Vec::new()));
    assert!(!accepts(&region, 0, 0));
}

#[test]
fn windows_only_with_one_area() {
    let region = InputRegions::WindowsOnly.region(&vec![area(Order::Middle, 10, 20, 30, 40)]);
    assert_eq!(region, InputRegion::Rects(vec![Rect::new(10, 20, 30, 40)]));
    assert!(accepts(&region, 10, 20));
    assert!(accepts(&region, 39, 59));
    assert!(!accepts(&region, 40, 59));
    assert!(!accepts(&region, 39, 60));
    assert!(!accepts(&region, 9, 20));
    assert!(!accepts(&region, 10, 19));
}

#[test]
fn windows_only_with_overlapping_areas() {
    let areas = vec![
        area(Order::Middle, 0, 0, 100, 100),
        area(Order::Foreground, 50, 50, 100, 100),
        area(Order::Tooltip, 60, 60, 10, 10),
    ];
    let region = InputRegions::WindowsOnly.region(&areas);
    assert_eq!(
        region,
        InputRegion::Rects(vec![
            Rect::new(0, 0, 100, 100),
            Rect::new(50, 50, 100, 100),
            Rect::new(60, 60, 10, 10),
        ])
    );
    for x in -10..170 {
        for y in -10..170 {
            let first = (0..100).contains(&x) && (0..100).contains(&y);
            let second = (50..150).contains(&x) && (50..150).contains(&y);
            assert_eq!(accepts(&region, x, y), first || second, "({}, {})", x, y);
        }
    }
}

#[test]
fn windows_only_leaves_out_the_background() {
    let areas = vec![
        area(Order::Background, 0, 0, 1920, 1080),
        area(Order::Middle, 5, 5, 10, 10),
        area(Order::Debug, 7, 7, 1, 1),
    ];
    assert_eq!(
        InputRegions::WindowsOnly.region(&areas),
        InputRegion::Rects(vec![Rect::new(5, 5, 10, 10), Rect::new(7, 7, 1, 1)])
    );
}

#[test]
fn windows_only_leaves_out_hidden_and_unknown_areas() {
    let hidden = AreaInfo { visible: false, ..area(Order::Middle, 0, 0, 10, 10) };
    let unplaced = AreaInfo { position: None, ..area(Order::Middle, 0, 0, 10, 10) };
    let extentless = AreaInfo { size: None, ..area(Order::Middle, 0, 0, 10, 10) };
    let areas = vec![hidden, unplaced, area(Order::Foreground, 1, 2, 3, 4), extentless];
    assert_eq!(
        InputRegions::WindowsOnly.region(&areas),
        InputRegion::Rects(vec![Rect::new(1, 2, 3, 4)])
    );
    assert_eq!(hidden.bounding_box(), None);
    assert_eq!(unplaced.bounding_box(), None);
    assert_eq!(extentless.bounding_box(), None);
    assert_eq!(area(Order::Background, 1, 2, 3, 4).bounding_box(), None);
    assert_eq!(area(Order::Tooltip, 1, 2, 3, 4).bounding_box(), Some(Rect::new(1, 2, 3, 4)));
}

#[test]
fn rect_edges() {
    let rect = Rect::new(-2, -3, 4, 5);
    assert!(rect.contains(-2, -3));
    assert!(rect.contains(1, 1));
    assert!(!rect.contains(2, 1));
    assert!(!rect.contains(1, 2));
    assert!(!rect.contains(-3, 0));
    assert!(!Rect::empty().contains(0, 0));
    assert!(!Rect::new(5, 5, -1, 10).contains(5, 5));
    let far = Rect::new(i32::MAX - 1, i32::MAX - 1, i32::MAX, i32::MAX);
    assert!(far.contains(i32::MAX, i32::MAX));
}
