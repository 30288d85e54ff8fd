use egui_wlr_layer::context::Context;
use egui_wlr_layer::placement::LayerAppOpts;
use egui_wlr_layer::scheduler::{FrameScheduler, FrameState, LayerAppHandle, Signalled};
use egui_wlr_layer::surface::{LayerApp, SurfaceId};
use egui_wlr_layer::geometry::Size;
use egui_wlr_layer::region::InputRegions;

#[test]
fn idle_signal_registers_a_frame() {
    assert_eq!(
        FrameState::Idle.signal(),
        Signalled { found: FrameState::Idle, state: FrameState::Requested, register: true }
    );
}

#[test]
fn requested_signal_is_dropped() {
    assert_eq!(
        FrameState::Requested.signal(),
        Signalled { found: FrameState::Requested, state: FrameState::Requested, register: false }
    );
}

#[test]
fn draw_returns_to_idle() {
    assert_eq!(FrameState::Requested.drawn(), FrameState::Idle);
    assert_eq!(FrameState::Idle.drawn(), FrameState::Idle);
}

#[test]
fn flag_round_trip() {
    assert_eq!(FrameState::from_flag(true), FrameState::Requested);
    assert_eq!(FrameState::from_flag(false), FrameState::Idle);
    assert!(FrameState::Requested.flag());
    assert!(!FrameState::Idle.flag());
}

#[test]
fn signals_coalesce_into_one_frame_request() {
    let scheduler = FrameScheduler::new(FrameState::Idle);
    let mut registered = 0;
    for _ in 0..25 {
        if scheduler.request().register {
            registered += 1;
        }
    }
    assert_eq!(registered, 1);
    assert_eq!(scheduler.state(), FrameState::Requested);
}

#[test]
fn signals_while_requested_register_nothing() {
    let scheduler = FrameScheduler::new(FrameState::Requested);
    for _ in 0..10 {
        assert!(!scheduler.request().register);
    }
    assert_eq!(scheduler.state(), FrameState::Requested);
}

#[test]
fn each_draw_allows_one_more_frame_request() {
    let scheduler = FrameScheduler::new(FrameState::Idle);
    let mut registered = 0;
    for _ in 0..4 {
        for _ in 0..3 {
            if scheduler.request().register {
                registered += 1;
            }
        }
        scheduler.clear();
        assert_eq!(scheduler.state(), FrameState::Idle);
    }
    assert_eq!(registered, 4);
}

#[test]
fn shared_scheduler_sees_the_same_flag() {
    let scheduler = FrameScheduler::new(FrameState::Idle);
    let hook = scheduler.share();
    assert!(hook.request().register);
    assert_eq!(scheduler.state(), FrameState::Requested);
    assert!(!scheduler.request().register);
    scheduler.clear();
    assert_eq!(hook.state(), FrameState::Idle);
    assert!(hook.request().register);
}

#[test]
fn new_surface_starts_with_a_frame_requested() {
    let app = LayerApp::new(SurfaceId(1), InputRegions::Full);
    let hook = app.scheduler();
    assert_eq!(hook.state(), FrameState::Requested);
    assert!(!hook.request().register);
}

#[test]
fn first_draw_clears_the_frame_request() {
    let mut context = Context::new();
    let (_handle, hook) = context.new_layer_app(SurfaceId(1), &LayerAppOpts::default());
    assert!(!hook.request().register);
    let frame = context.configure(SurfaceId(1), Size::new(640, 480));
    assert!(frame.is_some());
    assert_eq!(hook.state(), FrameState::Idle);
    assert!(hook.request().register);
    assert!(!hook.request().register);
}

#[test]
fn later_configure_keeps_the_frame_request() {
    let mut context = Context::new();
    let (_handle, hook) = context.new_layer_app(SurfaceId(1), &LayerAppOpts::default());
    assert!(context.configure(SurfaceId(1), Size::new(640, 480)).is_some());
    assert!(hook.request().register);
    assert!(context.configure(SurfaceId(1), Size::new(800, 600)).is_none());
    assert_eq!(hook.state(), FrameState::Requested);
}

#[test]
fn exit_flag_is_shared() {
    let flag = LayerAppHandle::new();
    assert!(!flag.exit_requested());
    let handle = flag.share();
    assert!(!handle.exit_requested());
    handle.exit();
    assert!(flag.exit_requested());
    assert!(handle.exit_requested());
}

#[test]
fn request_reports_the_state_it_found() {
    let scheduler = FrameScheduler::new(FrameState::Idle);
    assert_eq!(
        scheduler.request(),
        Signalled { found: FrameState::Idle, state: FrameState::Requested, register: true }
    );
    assert_eq!(
        scheduler.request(),
        Signalled { found: FrameState::Requested, state: FrameState::Requested, register: false }
    );
}

#[test]
fn handle_marks_its_surface_for_exit() {
    let app = LayerApp::new(SurfaceId(9), InputRegions::Full);
    let handle = app.handle();
    assert!(!app.exit_requested());
    handle.exit();
    assert!(app.exit_requested());
}

#[test]
fn retired_surface_is_idle() {
    let app = LayerApp::new(SurfaceId(9), InputRegions::Full);
    let hook = app.scheduler();
    assert_eq!(hook.state(), FrameState::Requested);
    app.retire();
    assert_eq!(hook.state(), FrameState::Idle);
}
