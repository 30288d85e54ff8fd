use egui_wlr_layer::context::{Context, FrameAction};
use egui_wlr_layer::geometry::{Pos, Size};
use egui_wlr_layer::input::{InputEvent, Modifiers};
use egui_wlr_layer::placement::{Layer, LayerAppOpts};
use egui_wlr_layer::region::{InputRegion, InputRegions};
use egui_wlr_layer::scale::Scale;
use egui_wlr_layer::surface::{LayerApp, SurfaceId, DEFAULT_HEIGHT, DEFAULT_WIDTH};

fn opts(input_regions: InputRegions) -> LayerAppOpts<'static> {
    LayerAppOpts { layer: Layer::Top, namespace: None, input_regions }
}

#[test]
fn fresh_surface_state() {
    let app = LayerApp::new(SurfaceId(3), InputRegions::WindowsOnly);
    assert_eq!(app.id(), SurfaceId(3));
    assert_eq!(app.size(), Size::new(1920, 1080));
    assert_eq!(app.scale(), Scale { numerator: 120 });
    assert_eq!(app.modifiers(), Modifiers::empty());
    assert_eq!(app.input_regions(), InputRegions::WindowsOnly);
    assert!(app.first_configure());
    assert!(!app.keyboard_focus());
    assert!(app.pending().is_empty());
    assert_eq!(app.physical_width(), 1920);
    assert_eq!(app.physical_height(), 1080);
}

#[test]
fn fallback_size_constants() {
    assert_eq!(DEFAULT_WIDTH, 1920);
    assert_eq!(DEFAULT_HEIGHT, 1080);
}

#[test]
fn configure_with_zero_width_uses_fallback() {
    let mut context = Context::new();
    context.new_layer_app(SurfaceId(1), &LayerAppOpts::default());
    let frame = context.configure(SurfaceId(1), Size::new(0, 700)).unwrap();
    assert_eq!(frame.size, Size::new(1920, 1080));
    assert_eq!(context.app(SurfaceId(1)).unwrap().size(), Size::new(1920, 1080));
}

#[test]
fn configure_with_zero_height_uses_fallback() {
    let mut context = Context::new();
    context.new_layer_app(SurfaceId(1), &LayerAppOpts::default());
    context.configure(SurfaceId(1), Size::new(300, 200));
    assert!(context.configure(SurfaceId(1), Size::new(900, 0)).is_none());
    assert_eq!(context.app(SurfaceId(1)).unwrap().size(), Size::new(1920, 1080));
}

#[test]
fn configure_with_zero_size_uses_fallback() {
    let mut context = Context::new();
    context.new_layer_app(SurfaceId(1), &LayerAppOpts::default());
    context.configure(SurfaceId(1), Size::new(0, 0));
    assert_eq!(context.app(SurfaceId(1)).unwrap().size(), Size::new(1920, 1080));
}

#[test]
fn fallback_holds_for_every_degenerate_report() {
    for other in [0u32, 1, 2, 599, 1080, 1920, 65_535, u32::MAX] {
        let mut app = LayerApp::new(SurfaceId(1), InputRegions::Full);
        app.configure(Size::new(0, other));
        assert_eq!(app.size(), Size::new(1920, 1080));
        app.configure(Size::new(17, 19));
        app.configure(Size::new(other, 0));
        assert_eq!(app.size(), Size::new(1920, 1080));
    }
}

#[test]
fn configure_adopts_reported_size() {
    let mut context = Context::new();
    context.new_layer_app(SurfaceId(1), &LayerAppOpts::default());
    context.configure(SurfaceId(1), Size::new(1, 1));
    assert_eq!(context.app(SurfaceId(1)).unwrap().size(), Size::new(1, 1));
    context.configure(SurfaceId(1), Size::new(u32::MAX, 7));
    assert_eq!(context.app(SurfaceId(1)).unwrap().size(), Size::new(u32::MAX, 7));
}

#[test]
fn only_first_configure_draws() {
    let mut context = Context::new();
    context.new_layer_app(SurfaceId(1), &LayerAppOpts::default());
    assert!(context.app(SurfaceId(1)).unwrap().first_configure());
    assert!(context.configure(SurfaceId(1), Size::new(10, 20)).is_some());
    assert!(!context.app(SurfaceId(1)).unwrap().first_configure());
    assert!(context.configure(SurfaceId(1), Size::new(10, 20)).is_none());
    assert!(context.configure(SurfaceId(1), Size::new(30, 40)).is_none());
}

#[test]
fn configure_for_unknown_surface_is_dropped() {
    let mut context = Context::new();
    context.new_layer_app(SurfaceId(1), &LayerAppOpts::default());
    assert!(context.configure(SurfaceId(2), Size::new(10, 20)).is_none());
    assert_eq!(context.len(), 1);
    assert!(context.app(SurfaceId(1)).unwrap().first_configure());
}

#[test]
fn end_to_end_first_frame() {
    let mut context = Context::new();
    let defaults = LayerAppOpts::default();
    assert_eq!(defaults.layer, Layer::Top);
    assert_eq!(defaults.namespace, None);
    assert_eq!(defaults.input_regions, InputRegions::Full);
    context.new_layer_app(SurfaceId(1), &defaults);
    let frame = context.configure(SurfaceId(1), Size::new(800, 600)).expect("one draw");
    assert_eq!(frame.size, Size::new(800, 600));
    assert_eq!(frame.scale, Scale::identity());
    assert_eq!(frame.physical, Size::new(800, 600));
    assert!(frame.events.is_empty());
    assert_eq!(frame.input_regions.region(&Vec::new()), InputRegion::Unrestricted);
    assert!(context.configure(SurfaceId(1), Size::new(800, 600)).is_none());
}

#[test]
fn end_to_end_first_frame_at_scale_two() {
    let mut context = Context::new();
    context.new_layer_app(SurfaceId(1), &LayerAppOpts::default());
    assert!(context.scale_factor_changed(SurfaceId(1), 2).is_some());
    let frame = context.configure(SurfaceId(1), Size::new(800, 600)).expect("one draw");
    assert_eq!(frame.physical, Size::new(1600, 1200));
    assert_eq!(frame.input_regions.region(&Vec::new()), InputRegion::Unrestricted);
}

#[test]
fn registration_replaces_same_identity() {
    let mut context = Context::new();
    context.new_layer_app(SurfaceId(1), &opts(InputRegions::Full));
    context.new_layer_app(SurfaceId(2), &opts(InputRegions::Full));
    context.configure(SurfaceId(1), Size::new(10, 20));
    context.new_layer_app(SurfaceId(1), &opts(InputRegions::Empty));
    assert_eq!(context.len(), 2);
    let app = context.app(SurfaceId(1)).unwrap();
    assert!(app.first_configure());
    assert_eq!(app.size(), Size::new(1920, 1080));
    assert_eq!(app.input_regions(), InputRegions::Empty);
}

#[test]
fn draw_hands_over_pending_input_once() {
    let mut context = Context::new();
    context.new_layer_app(SurfaceId(1), &LayerAppOpts::default());
    context.enter(SurfaceId(1));
    context.down(SurfaceId(1), 0, Pos::new(256, 512));
    let frame = context.configure(SurfaceId(1), Size::new(100, 100)).unwrap();
    assert_eq!(frame.events.len(), 4);
    assert_eq!(frame.events[0], InputEvent::WindowFocused(true));
    assert!(context.app(SurfaceId(1)).unwrap().pending().is_empty());
    match context.frame_with(SurfaceId(1), false) {
        FrameAction::Draw(next) => assert!(next.events.is_empty()),
        _ => panic!("expected a draw"),
    }
}

#[test]
fn frame_callback_draws() {
    let mut context = Context::new();
    context.new_layer_app(SurfaceId(1), &opts(InputRegions::WindowsOnly));
    context.configure(SurfaceId(1), Size::new(400, 300));
    context.preferred_scale(SurfaceId(1), 180);
    context.leave(SurfaceId(1));
    match context.frame(SurfaceId(1)) {
        FrameAction::Draw(frame) => {
            assert_eq!(frame.size, Size::new(400, 300));
            assert_eq!(frame.scale, Scale::from_fraction(180));
            assert_eq!(frame.physical, Size::new(600, 450));
            assert_eq!(frame.events, vec![InputEvent::WindowFocused(false)]);
            assert_eq!(frame.input_regions, InputRegions::WindowsOnly);
        }
        _ => panic!("expected a draw"),
    }
}

#[test]
fn frame_callback_for_unknown_surface_is_ignored() {
    let mut context = Context::new();
    assert_eq!(context.frame(SurfaceId(5)), FrameAction::Ignored);
    assert_eq!(context.frame_with(SurfaceId(5), true), FrameAction::Ignored);
    assert_eq!(context.frame_with(SurfaceId(5), false), FrameAction::Ignored);
}

#[test]
fn handlers_for_one_surface_leave_the_others_alone() {
    let mut context = Context::new();
    context.new_layer_app(SurfaceId(1), &LayerAppOpts::default());
    context.new_layer_app(SurfaceId(2), &opts(InputRegions::WindowsOnly));
    context.configure(SurfaceId(1), Size::new(300, 200));
    context.preferred_scale(SurfaceId(1), 150);
    context.enter(SurfaceId(1));
    context.down(SurfaceId(1), 1, Pos::new(0, 0));
    let other = context.app(SurfaceId(2)).unwrap();
    assert!(other.first_configure());
    assert_eq!(other.size(), Size::new(1920, 1080));
    assert_eq!(other.scale(), Scale::identity());
    assert!(!other.keyboard_focus());
    assert!(other.pending().is_empty());
    assert_eq!(other.input_regions(), InputRegions::WindowsOnly);
}

#[test]
fn exit_removes_surface_at_next_frame() {
    let mut context = Context::new();
    let (handle, hook) = context.new_layer_app(SurfaceId(1), &LayerAppOpts::default());
    context.new_layer_app(SurfaceId(2), &LayerAppOpts::default());
    context.configure(SurfaceId(1), Size::new(400, 300));
    assert!(matches!(context.frame(SurfaceId(1)), FrameAction::Draw(_)));
    handle.exit();
    assert!(hook.request().register);
    assert!(matches!(context.frame(SurfaceId(1)), FrameAction::Exit));
    assert_eq!(context.len(), 1);
    assert!(context.app(SurfaceId(1)).is_none());
    assert!(context.app(SurfaceId(2)).is_some());
    assert!(matches!(context.frame(SurfaceId(1)), FrameAction::Ignored));
}

#[test]
fn exit_forgets_contacts_of_the_surface() {
    let mut context = Context::new();
    context.new_layer_app(SurfaceId(1), &LayerAppOpts::default());
    context.new_layer_app(SurfaceId(2), &LayerAppOpts::default());
    context.down(SurfaceId(1), 10, Pos::new(0, 0));
    context.down(SurfaceId(2), 11, Pos::new(0, 0));
    context.down(SurfaceId(1), 12, Pos::new(0, 0));
    assert!(matches!(context.frame_with(SurfaceId(1), true), FrameAction::Exit));
    assert_eq!(context.touches().len(), 1);
    assert_eq!(context.touches()[0].id, 11);
    assert_eq!(context.up(10), None);
    assert_eq!(context.motion(12, Pos::new(5, 5)), None);
}

#[test]
fn reused_identity_gets_no_stale_touch_events() {
    let mut context = Context::new();
    context.new_layer_app(SurfaceId(1), &LayerAppOpts::default());
    context.down(SurfaceId(1), 4, Pos::new(0, 0));
    assert!(matches!(context.frame_with(SurfaceId(1), true), FrameAction::Exit));
    context.new_layer_app(SurfaceId(1), &LayerAppOpts::default());
    assert_eq!(context.up(4), None);
    assert!(context.app(SurfaceId(1)).unwrap().pending().is_empty());
}
