use egui_wlr_layer::context::Context;
use egui_wlr_layer::geometry::Pos;
use egui_wlr_layer::input::{
    translate_touch_down, translate_touch_motion, translate_touch_up, InputEvent,
    KeyboardModifiers, Modifiers, PointerButton, TouchPhase,
};
use egui_wlr_layer::model::TouchState;
use egui_wlr_layer::placement::LayerAppOpts;
use egui_wlr_layer::surface::SurfaceId;

fn context_with(surfaces: &[u32]) -> Context {
    let mut context = Context::new();
    for id in surfaces {
        context.new_layer_app(SurfaceId(*id), &LayerAppOpts::default());
    }
    context
}

fn touch(id: i32, phase: TouchPhase, pos: Pos) -> InputEvent {
    InputEvent::Touch { device_id: 0, id, phase, pos }
}

fn button(pos: Pos, pressed: bool, modifiers: Modifiers) -> InputEvent {
    InputEvent::PointerButton { pos, button: PointerButton::Primary, pressed, modifiers }
}

#[test]
fn tap_emits_six_events_in_order() {
    let mut context = context_with(&[1]);
    let pos = Pos::new(10 * 256, 20 * 256 + 128);
    assert_eq!(context.down(SurfaceId(1), 7, pos), Some(SurfaceId(1)));
    assert_eq!(context.up(7), Some(SurfaceId(1)));
    let none = Modifiers::empty();
    assert_eq!(
        context.app(SurfaceId(1)).unwrap().pending(),
        &vec![
            InputEvent::PointerGone,
            touch(7, TouchPhase::Start, pos),
            button(pos, true, none),
            touch(7, TouchPhase::End, pos),
            button(pos, false, none),
            InputEvent::PointerGone,
        ]
    );
    assert!(context.touches().is_empty());
}

#[test]
fn tap_reaches_only_its_surface() {
    let mut context = context_with(&[1, 2, 3]);
    context.down(SurfaceId(2), 0, Pos::new(0, 0));
    context.up(0);
    assert!(context.app(SurfaceId(1)).unwrap().pending().is_empty());
    assert_eq!(context.app(SurfaceId(2)).unwrap().pending().len(), 6);
    assert!(context.app(SurfaceId(3)).unwrap().pending().is_empty());
}

#[test]
fn tap_carries_the_held_modifiers() {
    let mut context = context_with(&[1]);
    context.enter(SurfaceId(1));
    context.update_modifiers(KeyboardModifiers {
        ctrl: true,
        alt: false,
        shift: true,
        caps_lock: false,
        logo: false,
        num_lock: false,
    });
    let pos = Pos::new(1, 2);
    context.down(SurfaceId(1), 1, pos);
    context.up(1);
    let held =
        Modifiers { alt: false, ctrl: true, shift: true, mac_cmd: false, command: true };
    let pending = context.app(SurfaceId(1)).unwrap().pending();
    assert_eq!(pending[3], button(pos, true, held));
    assert_eq!(pending[5], button(pos, false, held));
}

#[test]
fn touch_down_events() {
    let pos = Pos::new(3, 4);
    let none = Modifiers::empty();
    assert_eq!(
        translate_touch_down(-1, pos, none),
        vec![InputEvent::PointerGone, touch(-1, TouchPhase::Start, pos), button(pos, true, none)]
    );
}

#[test]
fn touch_up_events() {
    let pos = Pos::new(3, 4);
    let none = Modifiers::empty();
    assert_eq!(
        translate_touch_up(5, pos, none),
        vec![touch(5, TouchPhase::End, pos), button(pos, false, none), InputEvent::PointerGone]
    );
}

#[test]
fn touch_motion_events() {
    let pos = Pos::new(-3, 4);
    assert_eq!(
        translate_touch_motion(5, pos),
        vec![touch(5, TouchPhase::Move, pos), InputEvent::PointerMoved(pos)]
    );
}

#[test]
fn touch_down_remembers_the_contact() {
    let mut context = context_with(&[1]);
    context.down(SurfaceId(1), 3, Pos::new(5, 6));
    assert_eq!(
        context.touch(3),
        Some(TouchState { id: 3, surface: SurfaceId(1), last_position: Pos::new(5, 6) })
    );
    assert_eq!(context.touch(4), None);
}

#[test]
fn touch_down_on_unknown_surface_is_dropped() {
    let mut context = context_with(&[1]);
    assert_eq!(context.down(SurfaceId(2), 3, Pos::new(5, 6)), None);
    assert!(context.touches().is_empty());
    assert!(context.app(SurfaceId(1)).unwrap().pending().is_empty());
}

#[test]
fn touch_down_with_known_identifier_replaces_the_contact() {
    let mut context = context_with(&[1, 2]);
    context.down(SurfaceId(1), 3, Pos::new(5, 6));
    context.down(SurfaceId(1), 4, Pos::new(0, 0));
    context.down(SurfaceId(2), 3, Pos::new(7, 8));
    assert_eq!(context.touches().len(), 2);
    assert_eq!(
        context.touches()[0],
        TouchState { id: 3, surface: SurfaceId(2), last_position: Pos::new(7, 8) }
    );
    assert_eq!(context.up(3), Some(SurfaceId(2)));
    assert_eq!(context.touches().len(), 1);
    assert_eq!(context.touches()[0].id, 4);
}

#[test]
fn touch_motion_updates_position_and_moves_pointer() {
    let mut context = context_with(&[1]);
    let start = Pos::new(0, 0);
    let moved = Pos::new(512, 768);
    context.down(SurfaceId(1), 3, start);
    assert_eq!(context.motion(3, moved), Some(SurfaceId(1)));
    assert_eq!(context.touch(3).unwrap().last_position, moved);
    assert_eq!(context.up(3), Some(SurfaceId(1)));
    let none = Modifiers::empty();
    assert_eq!(
        context.app(SurfaceId(1)).unwrap().pending(),
        &vec![
            InputEvent::PointerGone,
            touch(3, TouchPhase::Start, start),
            button(start, true, none),
            touch(3, TouchPhase::Move, moved),
            InputEvent::PointerMoved(moved),
            touch(3, TouchPhase::End, moved),
            button(moved, false, none),
            InputEvent::PointerGone,
        ]
    );
}

#[test]
fn touch_events_for_unknown_contact_are_dropped() {
    let mut context = context_with(&[1]);
    assert_eq!(context.up(3), None);
    assert_eq!(context.motion(3, Pos::new(1, 1)), None);
    assert!(context.app(SurfaceId(1)).unwrap().pending().is_empty());
}

#[test]
fn touch_up_forgets_the_contact() {
    let mut context = context_with(&[1]);
    context.down(SurfaceId(1), 3, Pos::new(0, 0));
    assert_eq!(context.up(3), Some(SurfaceId(1)));
    assert_eq!(context.up(3), None);
    assert_eq!(context.app(SurfaceId(1)).unwrap().pending().len(), 6);
}

#[test]
fn cancel_tells_each_contact_then_pointer_gone_once() {
    let mut context = context_with(&[1, 2, 3]);
    let a = Pos::new(1, 1);
    let b = Pos::new(2, 2);
    let c = Pos::new(3, 3);
    context.down(SurfaceId(2), 10, a);
    context.down(SurfaceId(1), 11, b);
    context.down(SurfaceId(2), 12, c);
    for id in [1u32, 2, 3] {
        context.frame_with(SurfaceId(id), false);
    }
    assert_eq!(context.cancel(), vec![SurfaceId(1), SurfaceId(2)]);
    assert_eq!(
        context.app(SurfaceId(1)).unwrap().pending(),
        &vec![touch(11, TouchPhase::Cancel, b), InputEvent::PointerGone]
    );
    assert_eq!(
        context.app(SurfaceId(2)).unwrap().pending(),
        &vec![
            touch(10, TouchPhase::Cancel, a),
            touch(12, TouchPhase::Cancel, c),
            InputEvent::PointerGone
        ]
    );
    assert!(context.app(SurfaceId(3)).unwrap().pending().is_empty());
    assert!(context.touches().is_empty());
}

#[test]
fn cancel_uses_last_known_position() {
    let mut context = context_with(&[1]);
    context.down(SurfaceId(1), 10, Pos::new(1, 1));
    context.motion(10, Pos::new(9, 9));
    context.frame_with(SurfaceId(1), false);
    context.cancel();
    assert_eq!(
        context.app(SurfaceId(1)).unwrap().pending()[0],
        touch(10, TouchPhase::Cancel, Pos::new(9, 9))
    );
}

#[test]
fn cancel_without_contacts_does_nothing() {
    let mut context = context_with(&[1, 2]);
    assert!(context.cancel().is_empty());
    assert!(context.app(SurfaceId(1)).unwrap().pending().is_empty());
    assert!(context.app(SurfaceId(2)).unwrap().pending().is_empty());
}

#[test]
fn contacts_are_gone_after_cancel() {
    let mut context = context_with(&[1]);
    context.down(SurfaceId(1), 10, Pos::new(1, 1));
    context.cancel();
    assert_eq!(context.up(10), None);
    assert!(context.cancel().is_empty());
}
