use egui_wlr_layer::context::Context;
use egui_wlr_layer::geometry::Size;
use egui_wlr_layer::placement::LayerAppOpts;
use egui_wlr_layer::region::InputRegions;
use egui_wlr_layer::scale::Scale;
use egui_wlr_layer::surface::{LayerApp, SurfaceId};

#[test]
fn scale_constructors() {
    assert_eq!(Scale::identity().numerator, 120);
    assert_eq!(Scale::from_factor(1), Scale::identity());
    assert_eq!(Scale::from_factor(3).numerator, 360);
    assert_eq!(Scale::from_factor(-2).numerator, -240);
    assert_eq!(Scale::from_factor(i32::MAX).numerator, 120 * i32::MAX as i64);
    assert_eq!(Scale::from_factor(i32::MIN).numerator, 120 * i32::MIN as i64);
    assert_eq!(Scale::from_fraction(150).numerator, 150);
    assert_eq!(Scale::from_fraction(u32::MAX).numerator, u32::MAX as i64);
}

#[test]
fn integral_scales() {
    assert!(Scale::from_factor(1).is_integral());
    assert!(Scale::from_factor(0).is_integral());
    assert!(Scale::from_factor(-3).is_integral());
    assert!(Scale::from_fraction(240).is_integral());
    assert!(!Scale::from_fraction(150).is_integral());
    assert!(!Scale::from_fraction(121).is_integral());
    assert!(!Scale::from_fraction(119).is_integral());
    assert!(!Scale { numerator: -150 }.is_integral());
}

#[test]
fn physical_length_rounds_down() {
    assert_eq!(Scale::from_fraction(180).physical(800), 1200);
    assert_eq!(Scale::from_fraction(180).physical(801), 1201);
    assert_eq!(Scale::from_fraction(180).physical(1), 1);
    assert_eq!(Scale::from_fraction(150).physical(800), 1000);
    assert_eq!(Scale::from_fraction(150).physical(801), 1001);
    assert_eq!(Scale::from_fraction(150).physical(3), 3);
    assert_eq!(Scale::from_fraction(119).physical(1), 0);
    assert_eq!(Scale::from_fraction(119).physical(120), 119);
    assert_eq!(Scale::from_fraction(156).physical(10), 13);
    assert_eq!(Scale::from_fraction(160).physical(1000), 1333);
    assert_eq!(Scale::from_fraction(200).physical(3), 5);
    assert_eq!(Scale::from_factor(2).physical(1080), 2160);
    assert_eq!(Scale::from_factor(1).physical(u32::MAX), u32::MAX);
}

#[test]
fn physical_length_stays_in_range() {
    assert_eq!(Scale::from_factor(2).physical(u32::MAX), u32::MAX);
    assert_eq!(Scale::from_fraction(u32::MAX).physical(u32::MAX), u32::MAX);
    assert_eq!(Scale { numerator: i64::MAX }.physical(u32::MAX), u32::MAX);
    assert_eq!(Scale::from_factor(0).physical(500), 0);
    assert_eq!(Scale::from_factor(-1).physical(500), 0);
    assert_eq!(Scale { numerator: i64::MIN }.physical(500), 0);
    assert_eq!(Scale::from_factor(5).physical(0), 0);
}

#[test]
fn physical_size_scales_both_dimensions() {
    let size = Scale::from_fraction(150).physical_size(Size::new(801, 600));
    assert_eq!(size, Size::new(1001, 750));
}

#[test]
fn fractional_scale_always_applies() {
    let mut context = Context::new();
    context.new_layer_app(SurfaceId(1), &LayerAppOpts::default());
    let frame = context.preferred_scale(SurfaceId(1), 150).expect("redraw");
    assert_eq!(frame.scale, Scale::from_fraction(150));
    assert_eq!(frame.size, Size::new(1920, 1080));
    assert_eq!(frame.physical, Size::new(2400, 1350));
    let frame = context.preferred_scale(SurfaceId(1), 210).expect("redraw");
    assert_eq!(frame.scale, Scale::from_fraction(210));
    assert_eq!(context.app(SurfaceId(1)).unwrap().scale(), Scale::from_fraction(210));
}

#[test]
fn integer_scale_is_ignored_under_fractional_scaling() {
    let mut context = Context::new();
    context.new_layer_app(SurfaceId(1), &LayerAppOpts::default());
    assert!(context.preferred_scale(SurfaceId(1), 150).is_some());
    assert!(context.scale_factor_changed(SurfaceId(1), 2).is_none());
    assert!(context.scale_factor_changed(SurfaceId(1), 1).is_none());
    assert_eq!(context.app(SurfaceId(1)).unwrap().scale(), Scale::from_fraction(150));
}

#[test]
fn fractional_scale_wins_in_either_order() {
    let mut first = LayerApp::new(SurfaceId(1), InputRegions::Full);
    first.scale_factor_changed(2);
    first.preferred_scale(150);
    assert_eq!(first.scale(), Scale::from_fraction(150));

    let mut second = LayerApp::new(SurfaceId(1), InputRegions::Full);
    second.preferred_scale(150);
    second.scale_factor_changed(2);
    assert_eq!(second.scale(), Scale::from_fraction(150));
}

#[test]
fn integer_scale_applies_to_integral_scale() {
    let mut context = Context::new();
    context.new_layer_app(SurfaceId(1), &LayerAppOpts::default());
    let frame = context.scale_factor_changed(SurfaceId(1), 2).expect("redraw");
    assert_eq!(frame.scale, Scale::from_factor(2));
    assert_eq!(frame.physical, Size::new(3840, 2160));
    let frame = context.scale_factor_changed(SurfaceId(1), 3).expect("redraw");
    assert_eq!(frame.scale, Scale::from_factor(3));
}

#[test]
fn integer_scale_applies_after_whole_fractional_scale() {
    let mut context = Context::new();
    context.new_layer_app(SurfaceId(1), &LayerAppOpts::default());
    assert!(context.preferred_scale(SurfaceId(1), 240).is_some());
    assert!(context.scale_factor_changed(SurfaceId(1), 2).is_none());
    assert!(context.scale_factor_changed(SurfaceId(1), 3).is_some());
    assert_eq!(context.app(SurfaceId(1)).unwrap().scale(), Scale::from_factor(3));
}

#[test]
fn unchanged_scale_draws_nothing() {
    let mut context = Context::new();
    context.new_layer_app(SurfaceId(1), &LayerAppOpts::default());
    assert!(context.scale_factor_changed(SurfaceId(1), 1).is_none());
    assert!(context.preferred_scale(SurfaceId(1), 120).is_none());
    assert!(context.preferred_scale(SurfaceId(1), 150).is_some());
    assert!(context.preferred_scale(SurfaceId(1), 150).is_none());
}

#[test]
fn scale_change_redraws_with_pending_input() {
    let mut context = Context::new();
    context.new_layer_app(SurfaceId(1), &LayerAppOpts::default());
    context.enter(SurfaceId(1));
    let frame = context.preferred_scale(SurfaceId(1), 150).unwrap();
    assert_eq!(frame.events.len(), 1);
    assert!(context.app(SurfaceId(1)).unwrap().pending().is_empty());
    assert!(context.app(SurfaceId(1)).unwrap().first_configure());
}

#[test]
fn scale_for_unknown_surface_is_dropped() {
    let mut context = Context::new();
    context.new_layer_app(SurfaceId(1), &LayerAppOpts::default());
    assert!(context.scale_factor_changed(SurfaceId(2), 2).is_none());
    assert!(context.preferred_scale(SurfaceId(2), 150).is_none());
    assert_eq!(context.app(SurfaceId(1)).unwrap().scale(), Scale::identity());
}

#[test]
fn physical_size_follows_scale() {
    let mut app = LayerApp::new(SurfaceId(1), InputRegions::Full);
    app.configure(Size::new(801, 601));
    app.preferred_scale(150);
    assert_eq!(app.physical_width(), 1001);
    assert_eq!(app.physical_height(), 751);
}
