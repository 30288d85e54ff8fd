//! The dispatcher's state as contracts speak of it, and what each protocol
//! event does to it.
use crate::geometry::{Pos, Size};
use crate::input::{
    key_translation, pointer_translation, touch_down_events, touch_event, touch_motion_events,
    touch_up_events, InputEvent, KeyEvent, KeyboardModifiers, Modifiers, PointerButton,
    PointerEvent, TouchPhase,
};
use crate::region::InputRegions;
use crate::scale::{lemma_integral_scale_is_exact, Scale};
use crate::seat::{Capability, SeatDevices};
use crate::surface::{adopted_size, fallback_size, AppModel, FrameModel, SurfaceId};
use vstd::prelude::*;

verus! {

/// An active touch contact: the identifier that the device gave it, the
/// surface that it went down on, and where it was last seen.
#[derive(Clone, Copy, Debug, PartialEq, Eq, Structural)]
pub struct TouchState {
    pub id: i32,
    pub surface: SurfaceId,
    pub last_position: Pos,
}

/// The touch-cancel events of the contacts that lie on a surface, in the
/// contacts' order.
pub open spec fn touch_cancels(touches: Seq<TouchState>, surface: SurfaceId) -> Seq<InputEvent>
    decreases touches.len(),
{
    if touches.len() == 0 {
        seq![]
    } else {
        let before = touch_cancels(touches.drop_last(), surface);
        let point = touches.last();
        if point.surface == surface {
            before.push(touch_event(point.id, TouchPhase::Cancel, point.last_position))
        } else {
            before
        }
    }
}

/// What a cancellation of all contacts sends to a surface: a touch-cancel
/// for each contact on it and then, if there was any, one pointer-gone.
pub open spec fn cancel_events(touches: Seq<TouchState>, surface: SurfaceId) -> Seq<InputEvent> {
    let cancels = touch_cancels(touches, surface);
    if cancels.len() > 0 {
        cancels.push(InputEvent::PointerGone)
    } else {
        cancels
    }
}

/// The surfaces that a cancellation of all contacts reaches, in the order
/// of their registration, each once for every entry it has.
pub open spec fn cancelled_surfaces(apps: Seq<AppModel>, touches: Seq<TouchState>) -> Seq<
    SurfaceId,
>
    decreases apps.len(),
{
    if apps.len() == 0 {
        seq![]
    } else {
        let before = cancelled_surfaces(apps.drop_last(), touches);
        if cancel_events(touches, apps.last().id).len() > 0 {
            before.push(apps.last().id)
        } else {
            before
        }
    }
}

/// The contacts that do not lie on a surface, in the contacts' order.
pub open spec fn touches_off(touches: Seq<TouchState>, surface: SurfaceId) -> Seq<TouchState>
    decreases touches.len(),
{
    if touches.len() == 0 {
        seq![]
    } else {
        let before = touches_off(touches.drop_last(), surface);
        if touches.last().surface != surface {
            before.push(touches.last())
        } else {
            before
        }
    }
}

/// Whether no two contacts share an identifier.
pub open spec fn distinct_touches(touches: Seq<TouchState>) -> bool {
    forall|i: int, j: int|
        0 <= i < j < touches.len() ==> (#[trigger] touches[i]).id != (#[trigger] touches[j]).id
}

/// The state of the dispatcher: the registered surfaces in the order of
/// their registration, the active touch contacts in the order in which they
/// went down, and the seat's devices.
pub struct ContextModel {
    pub apps: Seq<AppModel>,
    pub touches: Seq<TouchState>,
    pub seat: SeatDevices,
}

impl ContextModel {
    /// No surface, no contact, no device.
    pub open spec fn empty() -> ContextModel {
        ContextModel { apps: Seq::empty(), touches: Seq::empty(), seat: SeatDevices::none() }
    }

    /// Whether `index` is where the first surface with the identity `id`
    /// stands.
    pub open spec fn is_first_app(self, id: SurfaceId, index: int) -> bool {
        &&& 0 <= index < self.apps.len()
        &&& self.apps[index].id == id
        &&& forall|j: int| 0 <= j < index ==> (#[trigger] self.apps[j]).id != id
    }

    /// Whether a surface is registered under `id`.
    pub open spec fn has_app(self, id: SurfaceId) -> bool {
        exists|index: int| self.is_first_app(id, index)
    }

    /// Where the surface registered under `id` stands.
    pub open spec fn app_index(self, id: SurfaceId) -> int {
        choose|index: int| self.is_first_app(id, index)
    }

    /// The surface registered under `id`.
    pub open spec fn app(self, id: SurfaceId) -> AppModel {
        self.apps[self.app_index(id)]
    }

    /// The state with the surface registered under `id` replaced.
    pub open spec fn with_app(self, id: SurfaceId, app: AppModel) -> ContextModel {
        ContextModel { apps: self.apps.update(self.app_index(id), app), ..self }
    }

    /// Whether `index` is where the first contact with the identifier
    /// `touch` stands.
    pub open spec fn is_first_touch(self, touch: i32, index: int) -> bool {
        &&& 0 <= index < self.touches.len()
        &&& self.touches[index].id == touch
        &&& forall|j: int| 0 <= j < index ==> (#[trigger] self.touches[j]).id != touch
    }

    /// Whether a contact with the identifier `touch` is active.
    pub open spec fn has_touch(self, touch: i32) -> bool {
        exists|index: int| self.is_first_touch(touch, index)
    }

    /// Where the contact with the identifier `touch` stands.
    pub open spec fn touch_index(self, touch: i32) -> int {
        choose|index: int| self.is_first_touch(touch, index)
    }

    /// The contact with the identifier `touch`.
    pub open spec fn touch(self, touch: i32) -> TouchState {
        self.touches[self.touch_index(touch)]
    }

    /// Whether `index` is where the first surface with the keyboard focus
    /// stands.
    pub open spec fn is_first_focused(self, index: int) -> bool {
        &&& 0 <= index < self.apps.len()
        &&& self.apps[index].keyboard_focus
        &&& forall|j: int| 0 <= j < index ==> !(#[trigger] self.apps[j]).keyboard_focus
    }

    /// Whether any surface holds the keyboard focus.
    pub open spec fn has_focus(self) -> bool {
        exists|index: int| self.is_first_focused(index)
    }

    /// Where the surface that receives keyboard input stands: the first
    /// that holds the focus.
    pub open spec fn focus_index(self) -> int {
        choose|index: int| self.is_first_focused(index)
    }

    /// The surface that receives keyboard input.
    pub open spec fn focused(self) -> AppModel {
        self.apps[self.focus_index()]
    }

    /// The invariant of the dispatcher: no two surfaces share an identity,
    /// every surface is well-formed, no two contacts share an identifier,
    /// and every contact lies on a registered surface.
    pub open spec fn wf(self) -> bool {
        &&& forall|i: int, j: int|
            0 <= i < j < self.apps.len() ==> (#[trigger] self.apps[i]).id != (
            #[trigger] self.apps[j]).id
        &&& forall|i: int| 0 <= i < self.apps.len() ==> (#[trigger] self.apps[i]).wf()
        &&& distinct_touches(self.touches)
        &&& forall|i: int|
            0 <= i < self.touches.len() ==> self.has_app((#[trigger] self.touches[i]).surface)
    }

    /// After a surface was registered under `id`: a fresh entry at the end,
    /// or in the place of the entry that `id` had.
    pub open spec fn register(self, id: SurfaceId, input_regions: InputRegions) -> ContextModel {
        let app = AppModel::fresh(id, input_regions);
        if self.has_app(id) {
            self.with_app(id, app)
        } else {
            ContextModel { apps: self.apps.push(app), ..self }
        }
    }

    /// After a configure event for the surface `id`.
    pub open spec fn configure(self, id: SurfaceId, reported: Size) -> ContextModel {
        if self.has_app(id) {
            self.with_app(id, self.app(id).configured(reported))
        } else {
            self
        }
    }

    /// The frame that a configure event makes the surface `id` draw.
    pub open spec fn configure_frame(self, id: SurfaceId, reported: Size) -> Option<FrameModel> {
        if self.has_app(id) {
            self.app(id).configure_frame(reported)
        } else {
            None
        }
    }

    /// After the compositor announced an integer scale for the surface
    /// `id`.
    pub open spec fn integer_scale(self, id: SurfaceId, factor: i32) -> ContextModel {
        if self.has_app(id) {
            self.with_app(id, self.app(id).integer_rescaled(factor))
        } else {
            self
        }
    }

    /// The frame that an integer scale makes the surface `id` draw.
    pub open spec fn integer_scale_frame(self, id: SurfaceId, factor: i32) -> Option<FrameModel> {
        if self.has_app(id) {
            self.app(id).integer_rescale_frame(factor)
        } else {
            None
        }
    }

    /// After the compositor announced a fractional scale for the surface
    /// `id`.
    pub open spec fn fractional_scale(self, id: SurfaceId, numerator: u32) -> ContextModel {
        if self.has_app(id) {
            self.with_app(id, self.app(id).rescaled(Scale::of_fraction(numerator)))
        } else {
            self
        }
    }

    /// The frame that a fractional scale makes the surface `id` draw.
    pub open spec fn fractional_scale_frame(self, id: SurfaceId, numerator: u32) -> Option<
        FrameModel,
    > {
        if self.has_app(id) {
            self.app(id).rescale_frame(Scale::of_fraction(numerator))
        } else {
            None
        }
    }

    /// After the frame callback of the surface `id` was delivered, the
    /// surface's exit flag being `exit`: the surface is drawn, or, if its
    /// exit was asked for, removed together with the contacts on it.
    pub open spec fn frame(self, id: SurfaceId, exit: bool) -> ContextModel {
        if !self.has_app(id) {
            self
        } else if exit {
            ContextModel {
                apps: self.apps.remove(self.app_index(id)),
                touches: touches_off(self.touches, id),
                ..self
            }
        } else {
            self.with_app(id, self.app(id).drained())
        }
    }

    /// After the keyboard focus entered (`true`) or left (`false`) the
    /// surface `id`.
    pub open spec fn focus(self, id: SurfaceId, focus: bool) -> ContextModel {
        if self.has_app(id) {
            self.with_app(id, self.app(id).focused(focus))
        } else {
            self
        }
    }

    /// After a key press or release: its events go to the surface with the
    /// keyboard focus, and are dropped where no surface has it.
    pub open spec fn key_event(self, event: KeyEvent, pressed: bool) -> ContextModel {
        if self.has_focus() {
            let app = self.focused();
            let events = key_translation(event, pressed, app.modifiers);
            ContextModel { apps: self.apps.update(self.focus_index(), app.append(events)), ..self }
        } else {
            self
        }
    }

    /// The surface whose interface is asked to repaint after a key press or
    /// release: the focused one, if the key gave it any event.
    pub open spec fn key_repaint(self, event: KeyEvent, pressed: bool) -> Option<SurfaceId> {
        if self.has_focus() && key_translation(event, pressed, self.focused().modifiers).len()
            > 0 {
            Some(self.focused().id)
        } else {
            None
        }
    }

    /// After the keyboard reported its modifiers: the surface with the
    /// keyboard focus holds them.
    pub open spec fn update_modifiers(self, keyboard: KeyboardModifiers) -> ContextModel {
        if self.has_focus() {
            let app = self.focused().with_modifiers(Modifiers::of_keyboard(keyboard));
            ContextModel { apps: self.apps.update(self.focus_index(), app), ..self }
        } else {
            self
        }
    }

    /// The interface event that a pointer event becomes for its surface,
    /// if the surface is registered and the event is forwarded.
    pub open spec fn pointer_input(self, event: PointerEvent) -> Option<InputEvent> {
        if self.has_app(event.surface) {
            pointer_translation(event.kind, event.position, self.app(event.surface).modifiers)
        } else {
            None
        }
    }

    /// After one pointer event.
    pub open spec fn pointer_event(self, event: PointerEvent) -> ContextModel {
        match self.pointer_input(event) {
            Some(input) => self.with_app(
                event.surface,
                self.app(event.surface).append(seq![input]),
            ),
            None => self,
        }
    }

    /// The surface whose interface is asked to repaint after a pointer
    /// event: the event's surface, if the event was forwarded to it.
    pub open spec fn pointer_repaint(self, event: PointerEvent) -> Option<SurfaceId> {
        if self.pointer_input(event) is Some {
            Some(event.surface)
        } else {
            None
        }
    }

    /// After a batch of pointer events, taken in order.
    pub open spec fn pointer_frame(self, events: Seq<PointerEvent>) -> ContextModel
        decreases events.len(),
    {
        if events.len() == 0 {
            self
        } else {
            self.pointer_frame(events.drop_last()).pointer_event(events.last())
        }
    }

    /// The surfaces whose interfaces are asked to repaint after a batch of
    /// pointer events: one entry for each event that was forwarded, in the
    /// events' order.
    pub open spec fn pointer_repaints(self, events: Seq<PointerEvent>) -> Seq<SurfaceId>
        decreases events.len(),
    {
        if events.len() == 0 {
            seq![]
        } else {
            let before = self.pointer_repaints(events.drop_last());
            let event = events.last();
            match self.pointer_frame(events.drop_last()).pointer_repaint(event) {
                Some(surface) => before.push(surface),
                None => before,
            }
        }
    }

    /// The contacts after the contact `point` went down: in the place of
    /// the contact that had its identifier, or at the end.
    pub open spec fn touches_with(self, point: TouchState) -> Seq<TouchState> {
        if self.has_touch(point.id) {
            self.touches.update(self.touch_index(point.id), point)
        } else {
            self.touches.push(point)
        }
    }

    /// After a finger went down on the surface `surface` at `pos`. On a
    /// surface that is not registered nothing happens.
    pub open spec fn down(self, surface: SurfaceId, touch: i32, pos: Pos) -> ContextModel {
        if self.has_app(surface) {
            let app = self.app(surface);
            let point = TouchState { id: touch, surface, last_position: pos };
            ContextModel {
                apps: self.apps.update(
                    self.app_index(surface),
                    app.append(touch_down_events(touch, pos, app.modifiers)),
                ),
                touches: self.touches_with(point),
                ..self
            }
        } else {
            self
        }
    }

    /// The surface whose interface is asked to repaint after a touch-down.
    pub open spec fn down_repaint(self, surface: SurfaceId) -> Option<SurfaceId> {
        if self.has_app(surface) {
            Some(surface)
        } else {
            None
        }
    }

    /// Whether the contact `touch` is active and lies on a registered
    /// surface.
    pub open spec fn touch_is_live(self, touch: i32) -> bool {
        self.has_touch(touch) && self.has_app(self.touch(touch).surface)
    }

    /// After the finger of the contact `touch` was lifted: the contact is
    /// gone, and its surface is told.
    pub open spec fn up(self, touch: i32) -> ContextModel {
        if self.has_touch(touch) {
            let point = self.touch(touch);
            let rest = self.touches.remove(self.touch_index(touch));
            if self.has_app(point.surface) {
                let app = self.app(point.surface);
                ContextModel {
                    apps: self.apps.update(
                        self.app_index(point.surface),
                        app.append(touch_up_events(touch, point.last_position, app.modifiers)),
                    ),
                    touches: rest,
                    ..self
                }
            } else {
                ContextModel { touches: rest, ..self }
            }
        } else {
            self
        }
    }

    /// After the finger of the contact `touch` moved to `pos`.
    pub open spec fn motion(self, touch: i32, pos: Pos) -> ContextModel {
        if self.touch_is_live(touch) {
            let point = self.touch(touch);
            let app = self.app(point.surface);
            ContextModel {
                apps: self.apps.update(
                    self.app_index(point.surface),
                    app.append(touch_motion_events(touch, pos)),
                ),
                touches: self.touches.update(
                    self.touch_index(touch),
                    TouchState { last_position: pos, ..point },
                ),
                ..self
            }
        } else {
            self
        }
    }

    /// The surface whose interface is asked to repaint after a touch-up or
    /// a touch motion of the contact `touch`.
    pub open spec fn touch_repaint(self, touch: i32) -> Option<SurfaceId> {
        if self.touch_is_live(touch) {
            Some(self.touch(touch).surface)
        } else {
            None
        }
    }

    /// After the compositor cancelled all contacts: every surface gets the
    /// cancel events of the contacts on it, and no contact is left.
    pub open spec fn cancel(self) -> ContextModel {
        ContextModel {
            apps: Seq::new(
                self.apps.len(),
                |i: int| self.apps[i].append(cancel_events(self.touches, self.apps[i].id)),
            ),
            touches: Seq::empty(),
            ..self
        }
    }

    /// The surfaces whose interfaces are asked to repaint after a
    /// cancellation.
    pub open spec fn cancel_repaints(self) -> Seq<SurfaceId> {
        cancelled_surfaces(self.apps, self.touches)
    }

    /// After the seat gained a capability.
    pub open spec fn new_capability(self, capability: Capability) -> ContextModel {
        ContextModel { seat: self.seat.with(capability, true), ..self }
    }

    /// After the seat lost a capability.
    pub open spec fn remove_capability(self, capability: Capability) -> ContextModel {
        ContextModel { seat: self.seat.with(capability, false), ..self }
    }
}

/// The first surface under an identity is the one that lookups find.
pub proof fn lemma_first_app(m: ContextModel, id: SurfaceId, index: int)
    requires
        m.is_first_app(id, index),
    ensures
        m.has_app(id),
        m.app_index(id) == index,
        m.app(id) == m.apps[index],
        m.app(id).id == id,
{
    let found = m.app_index(id);
    assert(m.is_first_app(id, found));
    if found < index {
        assert(m.apps[found].id != id);
    }
    if index < found {
        assert(m.apps[index].id != id);
    }
}

/// A surface is registered under an identity exactly when some entry
/// carries it.
pub proof fn lemma_has_app(m: ContextModel, id: SurfaceId)
    ensures
        m.has_app(id) <==> exists|i: int| 0 <= i < m.apps.len() && (#[trigger] m.apps[i]).id == id,
        m.has_app(id) ==> m.is_first_app(id, m.app_index(id)),
{
    if exists|i: int| 0 <= i < m.apps.len() && (#[trigger] m.apps[i]).id == id {
        let i = choose|i: int| 0 <= i < m.apps.len() && (#[trigger] m.apps[i]).id == id;
        lemma_least_app(m, id, i);
    }
    if m.has_app(id) {
        let index = m.app_index(id);
        assert(m.is_first_app(id, index));
        assert(m.apps[index].id == id);
    }
}

/// If an entry carries an identity, some entry is the first to carry it.
proof fn lemma_least_app(m: ContextModel, id: SurfaceId, index: int)
    requires
        0 <= index < m.apps.len(),
        m.apps[index].id == id,
    ensures
        m.has_app(id),
    decreases index,
{
    if exists|j: int| 0 <= j < index && (#[trigger] m.apps[j]).id == id {
        let j = choose|j: int| 0 <= j < index && (#[trigger] m.apps[j]).id == id;
        lemma_least_app(m, id, j);
    } else {
        assert(m.is_first_app(id, index));
    }
}

/// The first contact under an identifier is the one that lookups find.
pub proof fn lemma_first_touch(m: ContextModel, touch: i32, index: int)
    requires
        m.is_first_touch(touch, index),
    ensures
        m.has_touch(touch),
        m.touch_index(touch) == index,
        m.touch(touch) == m.touches[index],
        m.touch(touch).id == touch,
{
    let found = m.touch_index(touch);
    assert(m.is_first_touch(touch, found));
    if found < index {
        assert(m.touches[found].id != touch);
    }
    if index < found {
        assert(m.touches[index].id != touch);
    }
}

/// The first surface with the keyboard focus is the one that keyboard
/// input goes to.
pub proof fn lemma_first_focused(m: ContextModel, index: int)
    requires
        m.is_first_focused(index),
    ensures
        m.has_focus(),
        m.focus_index() == index,
        m.focused() == m.apps[index],
{
    let found = m.focus_index();
    assert(m.is_first_focused(found));
    if found < index {
        assert(!m.apps[found].keyboard_focus);
    }
    if index < found {
        assert(!m.apps[index].keyboard_focus);
    }
}

/// Replacing an entry by a well-formed one of the same identity changes no
/// lookup by identity and keeps the state well-formed.
pub proof fn lemma_update_app(m: ContextModel, index: int, app: AppModel)
    requires
        0 <= index < m.apps.len(),
        app.id == m.apps[index].id,
    ensures
        forall|id: SurfaceId, k: int|
            (ContextModel { apps: m.apps.update(index, app), ..m }).is_first_app(id, k)
                == m.is_first_app(id, k),
        forall|id: SurfaceId|
            (ContextModel { apps: m.apps.update(index, app), ..m }).has_app(id) == m.has_app(id),
        m.wf() && app.wf() ==> (ContextModel { apps: m.apps.update(index, app), ..m }).wf(),
{
    let n = ContextModel { apps: m.apps.update(index, app), ..m };
    assert forall|id: SurfaceId, k: int| n.is_first_app(id, k) == m.is_first_app(id, k) by {
        if n.is_first_app(id, k) {
            assert forall|j: int| 0 <= j < k implies (#[trigger] m.apps[j]).id != id by {
                assert(n.apps[j].id != id);
            }
        }
        if m.is_first_app(id, k) {
            assert forall|j: int| 0 <= j < k implies (#[trigger] n.apps[j]).id != id by {
                assert(m.apps[j].id != id);
            }
        }
    }
    assert forall|id: SurfaceId| n.has_app(id) == m.has_app(id) by {
        if n.has_app(id) {
            assert(m.is_first_app(id, n.app_index(id)));
        }
        if m.has_app(id) {
            assert(n.is_first_app(id, m.app_index(id)));
        }
    }
    if m.wf() && app.wf() {
        assert forall|i: int, j: int| 0 <= i < j < n.apps.len() implies (#[trigger] n.apps[i]).id
            != (#[trigger] n.apps[j]).id by {
            assert(m.apps[i].id != m.apps[j].id);
        }
        assert forall|i: int| 0 <= i < n.apps.len() implies (#[trigger] n.apps[i]).wf() by {
            if i != index {
                assert(m.apps[i].wf());
            }
        }
        assert forall|i: int| 0 <= i < n.touches.len() implies n.has_app(
            (#[trigger] n.touches[i]).surface,
        ) by {
            assert(m.has_app(m.touches[i].surface));
        }
    }
}

/// A contact is active under an identifier exactly when some contact
/// carries it.
pub proof fn lemma_has_touch(m: ContextModel, touch: i32)
    ensures
        m.has_touch(touch) <==> exists|i: int|
            0 <= i < m.touches.len() && (#[trigger] m.touches[i]).id == touch,
        m.has_touch(touch) ==> m.is_first_touch(touch, m.touch_index(touch)),
{
    if exists|i: int| 0 <= i < m.touches.len() && (#[trigger] m.touches[i]).id == touch {
        let i = choose|i: int| 0 <= i < m.touches.len() && (#[trigger] m.touches[i]).id == touch;
        lemma_least_touch(m, touch, i);
    }
    if m.has_touch(touch) {
        let index = m.touch_index(touch);
        assert(m.is_first_touch(touch, index));
        assert(m.touches[index].id == touch);
    }
}

/// If a contact carries an identifier, some contact is the first to carry
/// it.
proof fn lemma_least_touch(m: ContextModel, touch: i32, index: int)
    requires
        0 <= index < m.touches.len(),
        m.touches[index].id == touch,
    ensures
        m.has_touch(touch),
    decreases index,
{
    if exists|j: int| 0 <= j < index && (#[trigger] m.touches[j]).id == touch {
        let j = choose|j: int| 0 <= j < index && (#[trigger] m.touches[j]).id == touch;
        lemma_least_touch(m, touch, j);
    } else {
        assert(m.is_first_touch(touch, index));
    }
}

/// The contacts off a surface are contacts of the original list, none of
/// them lies on the surface, and they stay distinct.
pub proof fn lemma_touches_off(touches: Seq<TouchState>, surface: SurfaceId)
    ensures
        forall|k: int|
            0 <= k < touches_off(touches, surface).len() ==> {
                &&& (#[trigger] touches_off(touches, surface)[k]).surface != surface
                &&& exists|n: int|
                    0 <= n < touches.len() && (#[trigger] touches[n]) == touches_off(
                        touches,
                        surface,
                    )[k]
            },
        distinct_touches(touches) ==> distinct_touches(touches_off(touches, surface)),
    decreases touches.len(),
{
    if touches.len() > 0 {
        let front = touches.drop_last();
        let before = touches_off(front, surface);
        let kept = touches_off(touches, surface);
        lemma_touches_off(front, surface);
        assert forall|k: int| 0 <= k < kept.len() implies {
            &&& (#[trigger] kept[k]).surface != surface
            &&& exists|n: int| 0 <= n < touches.len() && (#[trigger] touches[n]) == kept[k]
        } by {
            if k < before.len() {
                assert(kept[k] == before[k]);
                let n = choose|n: int| 0 <= n < front.len() && (#[trigger] front[n]) == before[k];
                assert(touches[n] == kept[k]);
            } else {
                assert(touches[touches.len() - 1] == kept[k]);
            }
        }
        if distinct_touches(touches) {
            assert(distinct_touches(front)) by {
                assert forall|i: int, j: int| 0 <= i < j < front.len() implies (
                #[trigger] front[i]).id != (#[trigger] front[j]).id by {
                    assert(touches[i].id != touches[j].id);
                }
            }
            assert forall|i: int, j: int| 0 <= i < j < kept.len() implies (#[trigger] kept[i]).id
                != (#[trigger] kept[j]).id by {
                if j < before.len() {
                    assert(before[i].id != before[j].id);
                } else {
                    let n = choose|n: int|
                        0 <= n < front.len() && (#[trigger] front[n]) == before[i];
                    assert(touches[n].id != touches[touches.len() - 1].id);
                }
            }
        }
    }
}

/// Removing a surface together with the contacts on it keeps the state
/// well-formed.
pub proof fn lemma_remove_app(m: ContextModel, id: SurfaceId)
    requires
        m.wf(),
        m.has_app(id),
    ensures
        m.frame(id, true).wf(),
        !m.frame(id, true).has_app(id),
{
    let index = m.app_index(id);
    let n = m.frame(id, true);
    lemma_has_app(m, id);
    lemma_touches_off(m.touches, id);
    assert forall|i: int| 0 <= i < n.apps.len() implies (#[trigger] n.apps[i]) == m.apps[if i
        < index {
        i
    } else {
        i + 1
    }] by {}
    assert forall|i: int, j: int| 0 <= i < j < n.apps.len() implies (#[trigger] n.apps[i]).id != (
    #[trigger] n.apps[j]).id by {
        let a = if i < index {
            i
        } else {
            i + 1
        };
        let b = if j < index {
            j
        } else {
            j + 1
        };
        assert(m.apps[a].id != m.apps[b].id);
    }
    assert forall|i: int| 0 <= i < n.apps.len() implies (#[trigger] n.apps[i]).wf() by {
        let a = if i < index {
            i
        } else {
            i + 1
        };
        assert(m.apps[a].wf());
    }
    assert forall|i: int| 0 <= i < n.touches.len() implies n.has_app(
        (#[trigger] n.touches[i]).surface,
    ) by {
        let surface = n.touches[i].surface;
        let t = choose|t: int| 0 <= t < m.touches.len() && (#[trigger] m.touches[t]) == n.touches[i];
        assert(m.has_app(m.touches[t].surface));
        lemma_has_app(m, surface);
        let k = m.app_index(surface);
        assert(k != index);
        let shifted = if k < index {
            k
        } else {
            k - 1
        };
        assert(n.apps[shifted].id == surface);
        lemma_has_app(n, surface);
    }
    lemma_has_app(n, id);
    assert forall|i: int| 0 <= i < n.apps.len() implies (#[trigger] n.apps[i]).id != id by {
        let a = if i < index {
            i
        } else {
            i + 1
        };
        if a < index {
            assert(m.apps[a].id != id);
        } else {
            assert(m.apps[index].id != m.apps[a].id);
        }
    }
}

/// Lookups by identity depend on the surfaces alone.
pub proof fn lemma_same_surfaces(a: ContextModel, b: ContextModel, id: SurfaceId)
    requires
        a.apps == b.apps,
    ensures
        a.has_app(id) == b.has_app(id),
        a.has_app(id) ==> a.app_index(id) == b.app_index(id) && a.app(id) == b.app(id),
{
    if a.has_app(id) {
        let index = a.app_index(id);
        assert(a.is_first_app(id, index));
        assert(b.is_first_app(id, index));
        lemma_first_app(b, id, index);
    }
    if b.has_app(id) {
        let index = b.app_index(id);
        assert(b.is_first_app(id, index));
        assert(a.is_first_app(id, index));
    }
}

/// A surface whose state was replaced is found again, in its new state.
pub proof fn lemma_replaced_app(m: ContextModel, id: SurfaceId, app: AppModel)
    requires
        m.has_app(id),
        app.id == id,
    ensures
        m.with_app(id, app).has_app(id),
        m.with_app(id, app).app(id) == app,
        m.with_app(id, app).app_index(id) == m.app_index(id),
{
    let index = m.app_index(id);
    assert(m.is_first_app(id, index));
    lemma_update_app(m, index, app);
    let n = m.with_app(id, app);
    assert(n.is_first_app(id, index));
    lemma_first_app(n, id, index);
}

/// Replacing the state of one surface leaves every other surface as it
/// was: a handler for one surface changes no other.
pub proof fn lemma_other_apps_unchanged(
    m: ContextModel,
    id: SurfaceId,
    app: AppModel,
    other: SurfaceId,
)
    requires
        m.has_app(id),
        app.id == id,
        other != id,
    ensures
        m.with_app(id, app).has_app(other) == m.has_app(other),
        m.has_app(other) ==> m.with_app(id, app).app(other) == m.app(other),
{
    let index = m.app_index(id);
    assert(m.is_first_app(id, index));
    lemma_update_app(m, index, app);
    let n = m.with_app(id, app);
    if m.has_app(other) {
        let at = m.app_index(other);
        assert(m.is_first_app(other, at));
        assert(n.is_first_app(other, at));
        lemma_first_app(n, other, at);
    }
}

/// A surface that was registered is found, in its fresh state.
pub proof fn lemma_registered(m: ContextModel, id: SurfaceId, input_regions: InputRegions)
    ensures
        m.register(id, input_regions).has_app(id),
        m.register(id, input_regions).app(id) == AppModel::fresh(id, input_regions),
{
    let app = AppModel::fresh(id, input_regions);
    let n = m.register(id, input_regions);
    lemma_has_app(m, id);
    if m.has_app(id) {
        lemma_replaced_app(m, id, app);
    } else {
        let at = m.apps.len() as int;
        assert(n.is_first_app(id, at)) by {
            assert forall|j: int| 0 <= j < at implies (#[trigger] n.apps[j]).id != id by {
                assert(m.apps[j].id != id);
            }
        }
        lemma_first_app(n, id, at);
    }
}

/// The first frame: a surface that was just registered is drawn once, at
/// its first configure. The frame has the adopted size, the scale of one
/// and with it a physical size equal to the logical one, no input, and the
/// policy that the surface was registered with. A second configure draws
/// nothing.
pub proof fn lemma_first_frame(
    m: ContextModel,
    id: SurfaceId,
    input_regions: InputRegions,
    reported: Size,
)
    ensures
        ({
            let registered = m.register(id, input_regions);
            let frame = registered.configure_frame(id, reported);
            let configured = registered.configure(id, reported);
            &&& frame is Some
            &&& frame->0.size == adopted_size(reported)
            &&& frame->0.scale == Scale::one()
            &&& frame->0.physical == adopted_size(reported)
            &&& frame->0.events.len() == 0
            &&& frame->0.input_regions == input_regions
            &&& configured.configure_frame(id, reported) is None
        }),
{
    let registered = m.register(id, input_regions);
    lemma_registered(m, id, input_regions);
    let size = adopted_size(reported);
    lemma_integral_scale_is_exact(1, size.width);
    lemma_integral_scale_is_exact(1, size.height);
    lemma_replaced_app(registered, id, registered.app(id).configured(reported));
}

/// The size that a configure event leaves a surface with is the size that
/// the surface adopts for the reported one. In particular, a report without
/// extent in either dimension leaves the surface at the fallback size, not
/// at what was reported.
pub proof fn lemma_configure_size(m: ContextModel, id: SurfaceId, reported: Size)
    requires
        m.has_app(id),
    ensures
        m.configure(id, reported).has_app(id),
        m.configure(id, reported).app(id).size == adopted_size(reported),
        reported.width == 0 || reported.height == 0 ==> m.configure(id, reported).app(id).size
            == fallback_size(),
        m.configure(id, reported).app(id).wf(),
{
    lemma_has_app(m, id);
    lemma_replaced_app(m, id, m.app(id).configured(reported));
}

/// A tap: when a finger goes down on a registered surface and is lifted
/// again without having moved, the surface receives exactly six events, in
/// this order: pointer gone, touch start, primary button pressed, touch end,
/// primary button released, pointer gone.
pub proof fn lemma_tap(m: ContextModel, surface: SurfaceId, touch: i32, pos: Pos)
    requires
        m.has_app(surface),
    ensures
        m.down(surface, touch, pos).up(touch).has_app(surface),
        m.down(surface, touch, pos).up(touch).app(surface).events == m.app(surface).events
            + seq![
            InputEvent::PointerGone,
            touch_event(touch, TouchPhase::Start, pos),
            InputEvent::PointerButton {
                pos,
                button: PointerButton::Primary,
                pressed: true,
                modifiers: m.app(surface).modifiers,
            },
            touch_event(touch, TouchPhase::End, pos),
            InputEvent::PointerButton {
                pos,
                button: PointerButton::Primary,
                pressed: false,
                modifiers: m.app(surface).modifiers,
            },
            InputEvent::PointerGone,
        ],
        m.down(surface, touch, pos).up(touch).touches.len() == if m.has_touch(touch) {
            m.touches.len() - 1
        } else {
            m.touches.len() as int
        },
{
    lemma_has_app(m, surface);
    let app = m.app(surface);
    let point = TouchState { id: touch, surface, last_position: pos };
    let pressed = app.append(touch_down_events(touch, pos, app.modifiers));
    let d = m.down(surface, touch, pos);
    // The surface after the touch-down.
    lemma_replaced_app(m, surface, pressed);
    lemma_same_surfaces(d, m.with_app(surface, pressed), surface);
    assert(d.has_app(surface) && d.app(surface) == pressed);
    // The contact after the touch-down.
    lemma_has_touch(m, touch);
    if m.has_touch(touch) {
        let at = m.touch_index(touch);
        assert(d.touches == m.touches.update(at, point));
        assert(d.is_first_touch(touch, at)) by {
            assert forall|j: int| 0 <= j < at implies (#[trigger] d.touches[j]).id != touch by {
                assert(m.touches[j].id != touch);
            }
        }
        lemma_first_touch(d, touch, at);
    } else {
        let at = m.touches.len() as int;
        assert(d.touches == m.touches.push(point));
        assert(d.is_first_touch(touch, at)) by {
            assert forall|j: int| 0 <= j < at implies (#[trigger] d.touches[j]).id != touch by {
                assert(m.touches[j].id != touch);
            }
        }
        lemma_first_touch(d, touch, at);
    }
    assert(d.has_touch(touch) && d.touch(touch) == point);
    // The touch-up.
    let u = d.up(touch);
    let released = pressed.append(touch_up_events(touch, pos, pressed.modifiers));
    lemma_has_app(d, surface);
    lemma_replaced_app(d, surface, released);
    lemma_same_surfaces(u, d.with_app(surface, released), surface);
    assert(u.app(surface) == released);
    assert(released.events =~= m.app(surface).events + seq![
        InputEvent::PointerGone,
        touch_event(touch, TouchPhase::Start, pos),
        InputEvent::PointerButton {
            pos,
            button: PointerButton::Primary,
            pressed: true,
            modifiers: m.app(surface).modifiers,
        },
        touch_event(touch, TouchPhase::End, pos),
        InputEvent::PointerButton {
            pos,
            button: PointerButton::Primary,
            pressed: false,
            modifiers: m.app(surface).modifiers,
        },
        InputEvent::PointerGone,
    ]);
}

/// A fractional scale always applies: afterwards the surface has it,
/// whatever scale it had before.
pub proof fn lemma_fractional_scale_applies(m: ContextModel, id: SurfaceId, numerator: u32)
    requires
        m.has_app(id),
    ensures
        m.fractional_scale(id, numerator).has_app(id),
        m.fractional_scale(id, numerator).app(id).scale == Scale::of_fraction(numerator),
{
    lemma_has_app(m, id);
    lemma_replaced_app(m, id, m.app(id).rescaled(Scale::of_fraction(numerator)));
}

/// An integer scale is ignored by a surface under fractional scaling:
/// nothing changes, and nothing is drawn.
pub proof fn lemma_integer_scale_ignored(m: ContextModel, id: SurfaceId, factor: i32)
    requires
        m.has_app(id),
        !m.app(id).scale.integral(),
    ensures
        m.integer_scale(id, factor) == m,
        m.integer_scale_frame(id, factor) is None,
{
    lemma_has_app(m, id);
    assert(m.apps.update(m.app_index(id), m.app(id)) =~= m.apps);
}

/// An integer scale applies to a surface whose scale is a whole number.
pub proof fn lemma_integer_scale_applies(m: ContextModel, id: SurfaceId, factor: i32)
    requires
        m.has_app(id),
        m.app(id).scale.integral(),
    ensures
        m.integer_scale(id, factor).has_app(id),
        m.integer_scale(id, factor).app(id).scale == Scale::of_factor(factor),
{
    lemma_has_app(m, id);
    lemma_replaced_app(m, id, m.app(id).integer_rescaled(factor));
}

/// A fractional scale and an integer scale for the same surface, in either
/// order: a fractional scale that arrives after an integer one applies, and
/// one that is no whole number is not undone by an integer scale that
/// arrives after it.
pub proof fn lemma_fractional_scale_wins(
    m: ContextModel,
    id: SurfaceId,
    numerator: u32,
    factor: i32,
)
    requires
        m.has_app(id),
    ensures
        m.integer_scale(id, factor).fractional_scale(id, numerator).app(id).scale
            == Scale::of_fraction(numerator),
        !Scale::of_fraction(numerator).integral() ==> m.fractional_scale(
            id,
            numerator,
        ).integer_scale(id, factor) == m.fractional_scale(id, numerator),
        !Scale::of_fraction(numerator).integral() ==> m.fractional_scale(
            id,
            numerator,
        ).integer_scale(id, factor).app(id).scale == Scale::of_fraction(numerator),
{
    lemma_has_app(m, id);
    // The integer scale first.
    let first = m.integer_scale(id, factor);
    lemma_replaced_app(m, id, m.app(id).integer_rescaled(factor));
    lemma_fractional_scale_applies(first, id, numerator);
    // The fractional scale first.
    let other = m.fractional_scale(id, numerator);
    lemma_fractional_scale_applies(m, id, numerator);
    if !Scale::of_fraction(numerator).integral() {
        lemma_integer_scale_ignored(other, id, factor);
    }
}

} // verus!
