//! Input translation: from the events of pointer, keyboard and touch devices
//! to the events that the interface engine consumes.
use crate::geometry::Pos;
use crate::keysyms::{keysym_key, wl_to_egui, Key};
use crate::surface::SurfaceId;
use vstd::prelude::*;
use vstd::string::StrSliceExecFns;

verus! {

/// Button code of the left mouse button.
pub const BTN_LEFT: u32 = 0x110;

/// Button code of the right mouse button.
pub const BTN_RIGHT: u32 = 0x111;

/// Button code of the middle mouse button.
pub const BTN_MIDDLE: u32 = 0x112;

/// Button code of the first side button.
pub const BTN_SIDE: u32 = 0x113;

/// Button code of the second side button.
pub const BTN_EXTRA: u32 = 0x114;

/// Button code of the "forward" button.
pub const BTN_FORWARD: u32 = 0x115;

/// Button code of the "back" button.
pub const BTN_BACK: u32 = 0x116;

/// The modifier keys as the interface engine sees them.
#[derive(Clone, Copy, Debug, PartialEq, Eq, Structural)]
pub struct Modifiers {
    pub alt: bool,
    pub ctrl: bool,
    pub shift: bool,
    pub mac_cmd: bool,
    pub command: bool,
}

/// The modifier keys as the keyboard reports them.
#[derive(Clone, Copy, Debug, PartialEq, Eq, Structural)]
pub struct KeyboardModifiers {
    pub ctrl: bool,
    pub alt: bool,
    pub shift: bool,
    pub caps_lock: bool,
    pub logo: bool,
    pub num_lock: bool,
}

impl Modifiers {
    /// No modifier held.
    pub open spec fn none() -> Modifiers {
        Modifiers { alt: false, ctrl: false, shift: false, mac_cmd: false, command: false }
    }

    /// What the interface engine is told for a keyboard's modifiers: `alt`,
    /// `ctrl` and `shift` as reported, `command` following `ctrl`, and never
    /// a Mac command key.
    pub open spec fn of_keyboard(keyboard: KeyboardModifiers) -> Modifiers {
        Modifiers {
            alt: keyboard.alt,
            ctrl: keyboard.ctrl,
            shift: keyboard.shift,
            mac_cmd: false,
            command: keyboard.ctrl,
        }
    }

    /// No modifier held.
    pub fn empty() -> (modifiers: Modifiers)
        ensures
            modifiers == Modifiers::none(),
    {
        Modifiers { alt: false, ctrl: false, shift: false, mac_cmd: false, command: false }
    }

    /// The interface's modifiers for a keyboard's modifiers.
    pub fn from_keyboard(keyboard: KeyboardModifiers) -> (modifiers: Modifiers)
        ensures
            modifiers == Modifiers::of_keyboard(keyboard),
    {
        Modifiers {
            alt: keyboard.alt,
            ctrl: keyboard.ctrl,
            shift: keyboard.shift,
            mac_cmd: false,
            command: keyboard.ctrl,
        }
    }
}

/// The pointer buttons that the interface engine tells apart.
#[derive(Clone, Copy, Debug, PartialEq, Eq, Structural)]
pub enum PointerButton {
    Primary,
    Secondary,
    Middle,
    Extra1,
    Extra2,
}

/// The stage of a touch contact.
#[derive(Clone, Copy, Debug, PartialEq, Eq, Structural)]
pub enum TouchPhase {
    Start,
    Move,
    End,
    Cancel,
}

/// An event for the interface engine.
#[derive(Clone, Debug, PartialEq, Eq)]
pub enum InputEvent {
    /// Text that a key press produced.
    Text(String),
    /// A key was pressed or released.
    Key { key: Key, pressed: bool, repeat: bool, modifiers: Modifiers },
    /// The pointer moved to a position.
    PointerMoved(Pos),
    /// A pointer button was pressed or released at a position.
    PointerButton { pos: Pos, button: PointerButton, pressed: bool, modifiers: Modifiers },
    /// The pointer is no longer over the surface.
    PointerGone,
    /// The wheel turned by a number of lines along each axis.
    MouseWheel { delta_x: i64, delta_y: i64, modifiers: Modifiers },
    /// A touch contact started, moved, ended or was cancelled.
    Touch { device_id: u64, id: i32, phase: TouchPhase, pos: Pos },
    /// The surface gained or lost the keyboard focus.
    WindowFocused(bool),
}

/// What a pointer did.
#[derive(Clone, Copy, Debug, PartialEq, Eq, Structural)]
pub enum PointerEventKind {
    Enter,
    Leave,
    Motion,
    Press { button: u32 },
    Release { button: u32 },
    /// Scrolling, in discrete steps along each axis.
    Axis { horizontal: i32, vertical: i32 },
}

/// A pointer event as the display protocol delivers it.
#[derive(Clone, Copy, Debug, PartialEq, Eq, Structural)]
pub struct PointerEvent {
    pub surface: SurfaceId,
    pub position: Pos,
    pub kind: PointerEventKind,
}

/// A key press or release as the display protocol delivers it: the key's
/// symbol, and the text that the press produced, if any.
#[derive(Clone, Debug, PartialEq, Eq)]
pub struct KeyEvent {
    pub keysym: u32,
    pub utf8: Option<String>,
}

/// The touch device that every touch event is attributed to.
pub const TOUCH_DEVICE: u64 = 0;

/// The button that a device's button code stands for. The right, middle,
/// back/side and forward/extra buttons are told apart; the left button and
/// every unknown code count as the primary button.
pub open spec fn button_of(code: u32) -> PointerButton {
    if code == BTN_RIGHT {
        PointerButton::Secondary
    } else if code == BTN_MIDDLE {
        PointerButton::Middle
    } else if code == BTN_BACK || code == BTN_SIDE {
        PointerButton::Extra1
    } else if code == BTN_FORWARD || code == BTN_EXTRA {
        PointerButton::Extra2
    } else {
        PointerButton::Primary
    }
}

/// The button that a device's button code stands for.
pub fn pointer_button(code: u32) -> (button: PointerButton)
    ensures
        button == button_of(code),
{
    if code == BTN_RIGHT {
        PointerButton::Secondary
    } else if code == BTN_MIDDLE {
        PointerButton::Middle
    } else if code == BTN_BACK || code == BTN_SIDE {
        PointerButton::Extra1
    } else if code == BTN_FORWARD || code == BTN_EXTRA {
        PointerButton::Extra2
    } else {
        PointerButton::Primary
    }
}

/// The interface event that a pointer event becomes, if any.
///
/// Entering a surface is not forwarded. Leaving it means the pointer is
/// gone. Motion reports the position. A button press or release reports the
/// position and the button. Scrolling reports the steps as lines, the
/// vertical axis inverted.
pub open spec fn pointer_translation(
    kind: PointerEventKind,
    position: Pos,
    modifiers: Modifiers,
) -> Option<InputEvent> {
    match kind {
        PointerEventKind::Enter => None,
        PointerEventKind::Leave => Some(InputEvent::PointerGone),
        PointerEventKind::Motion => Some(InputEvent::PointerMoved(position)),
        PointerEventKind::Press { button } => Some(
            InputEvent::PointerButton {
                pos: position,
                button: button_of(button),
                pressed: true,
                modifiers,
            },
        ),
        PointerEventKind::Release { button } => Some(
            InputEvent::PointerButton {
                pos: position,
                button: button_of(button),
                pressed: false,
                modifiers,
            },
        ),
        PointerEventKind::Axis { horizontal, vertical } => Some(
            InputEvent::MouseWheel {
                delta_x: horizontal as i64,
                delta_y: (-vertical) as i64,
                modifiers,
            },
        ),
    }
}

/// Translates one pointer event for a surface whose modifiers are
/// `modifiers`.
pub fn translate_pointer(kind: PointerEventKind, position: Pos, modifiers: Modifiers) -> (event:
    Option<InputEvent>)
    ensures
        event == pointer_translation(kind, position, modifiers),
{
    match kind {
        PointerEventKind::Enter => None,
        PointerEventKind::Leave => Some(InputEvent::PointerGone),
        PointerEventKind::Motion => Some(InputEvent::PointerMoved(position)),
        PointerEventKind::Press { button } => Some(
            InputEvent::PointerButton {
                pos: position,
                button: pointer_button(button),
                pressed: true,
                modifiers,
            },
        ),
        PointerEventKind::Release { button } => Some(
            InputEvent::PointerButton {
                pos: position,
                button: pointer_button(button),
                pressed: false,
                modifiers,
            },
        ),
        PointerEventKind::Axis { horizontal, vertical } => {
            let down: i64 = vertical as i64;
            Some(InputEvent::MouseWheel { delta_x: horizontal as i64, delta_y: -down, modifiers })
        },
    }
}

/// Whether a character is a control code: `U+0000` to `U+001F`, or
/// `U+007F` to `U+009F`.
pub open spec fn control(c: char) -> bool {
    c as u32 <= 0x1f || 0x7f <= c as u32 <= 0x9f
}

/// Whether a character is a control code.
pub fn is_control(c: char) -> (is: bool)
    ensures
        is == control(c),
{
    let code: u32 = c as u32;
    code <= 0x1f || (0x7f <= code && code <= 0x9f)
}

/// Whether a text is worth a text event: it is not empty and holds no
/// control code.
pub open spec fn printable(text: Seq<char>) -> bool {
    text.len() > 0 && forall|i: int| 0 <= i < text.len() ==> !control(#[trigger] text[i])
}

/// Whether a text is worth a text event.
pub fn is_printable(text: &str) -> (is: bool)
    ensures
        is == printable(text@),
{
    let len: usize = text.unicode_len();
    if len == 0 {
        return false;
    }
    let mut at: usize = 0;
    while at < len
        invariant
            at <= len,
            len == text@.len(),
            forall|i: int| 0 <= i < at ==> !control(#[trigger] text@[i]),
        decreases len - at,
    {
        if is_control(text.get_char(at)) {
            return false;
        }
        at += 1;
    }
    true
}

/// The text event of a key event: one, holding the text, when the key
/// produced printable text.
pub open spec fn text_events(utf8: Option<String>) -> Seq<InputEvent> {
    match utf8 {
        Some(text) => if printable(text@) {
            seq![InputEvent::Text(text)]
        } else {
            seq![]
        },
        None => seq![],
    }
}

/// The key event of a keyboard symbol: one when the symbol has a key, none
/// when it has not.
pub open spec fn symbol_events(keysym: u32, pressed: bool, modifiers: Modifiers) -> Seq<
    InputEvent,
> {
    match keysym_key(keysym) {
        Some(key) => seq![InputEvent::Key { key, pressed, repeat: false, modifiers }],
        None => seq![],
    }
}

/// The interface events of a key press or release: the text first, then
/// the key.
pub open spec fn key_translation(event: KeyEvent, pressed: bool, modifiers: Modifiers) -> Seq<
    InputEvent,
> {
    text_events(event.utf8) + symbol_events(event.keysym, pressed, modifiers)
}

/// Translates a key press or release for a surface whose modifiers are
/// `modifiers`.
pub fn translate_key(event: KeyEvent, pressed: bool, modifiers: Modifiers) -> (events: Vec<
    InputEvent,
>)
    ensures
        events@ == key_translation(event, pressed, modifiers),
{
    let mut events: Vec<InputEvent> = Vec::new();
    let KeyEvent { keysym, utf8 } = event;
    if let Some(text) = utf8 {
        if is_printable(text.as_str()) {
            events.push(InputEvent::Text(text));
        }
    }
    if let Some(key) = wl_to_egui(keysym) {
        events.push(InputEvent::Key { key, pressed, repeat: false, modifiers });
    }
    events
}

/// The touch event of contact `id` in the given phase at `pos`.
pub open spec fn touch_event(id: i32, phase: TouchPhase, pos: Pos) -> InputEvent {
    InputEvent::Touch { device_id: TOUCH_DEVICE, id, phase, pos }
}

/// What a finger that touches down at `pos` produces: the pointer leaves
/// wherever it hovered, the contact starts, and the primary button goes
/// down at the contact.
pub open spec fn touch_down_events(id: i32, pos: Pos, modifiers: Modifiers) -> Seq<InputEvent> {
    seq![
        InputEvent::PointerGone,
        touch_event(id, TouchPhase::Start, pos),
        InputEvent::PointerButton { pos, button: PointerButton::Primary, pressed: true, modifiers },
    ]
}

/// What a finger that lifts at `pos` produces: the contact ends, the
/// primary button is released, and the pointer is gone.
pub open spec fn touch_up_events(id: i32, pos: Pos, modifiers: Modifiers) -> Seq<InputEvent> {
    seq![
        touch_event(id, TouchPhase::End, pos),
        InputEvent::PointerButton { pos, button: PointerButton::Primary, pressed: false, modifiers },
        InputEvent::PointerGone,
    ]
}

/// What a finger that moves to `pos` produces: the contact moves, and the
/// pointer with it.
pub open spec fn touch_motion_events(id: i32, pos: Pos) -> Seq<InputEvent> {
    seq![touch_event(id, TouchPhase::Move, pos), InputEvent::PointerMoved(pos)]
}

/// The events of a touch-down.
pub fn translate_touch_down(id: i32, pos: Pos, modifiers: Modifiers) -> (events: Vec<InputEvent>)
    ensures
        events@ == touch_down_events(id, pos, modifiers),
{
    let mut events: Vec<InputEvent> = Vec::new();
    events.push(InputEvent::PointerGone);
    events.push(InputEvent::Touch { device_id: TOUCH_DEVICE, id, phase: TouchPhase::Start, pos });
    events.push(
        InputEvent::PointerButton { pos, button: PointerButton::Primary, pressed: true, modifiers },
    );
    events
}

/// The events of a touch-up.
pub fn translate_touch_up(id: i32, pos: Pos, modifiers: Modifiers) -> (events: Vec<InputEvent>)
    ensures
        events@ == touch_up_events(id, pos, modifiers),
{
    let mut events: Vec<InputEvent> = Vec::new();
    events.push(InputEvent::Touch { device_id: TOUCH_DEVICE, id, phase: TouchPhase::End, pos });
    events.push(
        InputEvent::PointerButton { pos, button: PointerButton::Primary, pressed: false, modifiers },
    );
    events.push(InputEvent::PointerGone);
    events
}

/// The events of a touch motion.
pub fn translate_touch_motion(id: i32, pos: Pos) -> (events: Vec<InputEvent>)
    ensures
        events@ == touch_motion_events(id, pos),
{
    let mut events: Vec<InputEvent> = Vec::new();
    events.push(InputEvent::Touch { device_id: TOUCH_DEVICE, id, phase: TouchPhase::Move, pos });
    events.push(InputEvent::PointerMoved(pos));
    events
}

} // verus!
