//! The dispatcher: routes every protocol event to the state of the surface
//! that it belongs to.
use crate::geometry::{Pos, Size};
use crate::input::{
    translate_key, translate_pointer, translate_touch_down, translate_touch_motion,
    translate_touch_up, InputEvent, KeyEvent, KeyboardModifiers, Modifiers, PointerEvent,
    TouchPhase, TOUCH_DEVICE,
};
use crate::model::{
    cancel_events, cancelled_surfaces, distinct_touches, lemma_first_app, lemma_first_focused,
    lemma_first_touch, lemma_has_app, lemma_has_touch, lemma_remove_app, lemma_update_app,
    touch_cancels, touches_off, ContextModel, TouchState,
};
use crate::placement::LayerAppOpts;
use crate::scale::Scale;
use crate::scheduler::{FrameScheduler, LayerAppHandle};
use crate::seat::{Capability, SeatDevices};
use crate::surface::{frame_view, AppModel, Frame, LayerApp, SurfaceId};
use vstd::prelude::*;

verus! {

/// What the delivery of a frame callback asks of the caller.
#[derive(Clone, Debug, PartialEq, Eq)]
pub enum FrameAction {
    /// Nothing: the surface is not registered.
    Ignored,
    /// Draw this frame and present it.
    Draw(Frame),
    /// The surface was removed: deliver the exit notification to its
    /// application and release what belongs to it.
    Exit,
}

impl FrameAction {
    /// Whether this is the action for a frame callback of `surface` in the
    /// state `before`, the surface's exit flag being `exit`.
    pub open spec fn answers(self, before: ContextModel, surface: SurfaceId, exit: bool) -> bool {
        match self {
            FrameAction::Ignored => !before.has_app(surface),
            FrameAction::Exit => before.has_app(surface) && exit,
            FrameAction::Draw(frame) => before.has_app(surface) && !exit && frame@
                == before.app(surface).snapshot(),
        }
    }
}

/// The events that a cancellation of all contacts sends to a surface.
fn cancellation(touches: &Vec<TouchState>, surface: SurfaceId) -> (events: Vec<InputEvent>)
    ensures
        events@ == cancel_events(touches@, surface),
{
    let mut events: Vec<InputEvent> = Vec::new();
    let mut at: usize = 0;
    while at < touches.len()
        invariant
            at <= touches.len(),
            events@ == touch_cancels(touches@.take(at as int), surface),
        decreases touches.len() - at,
    {
        proof {
            let next = touches@.take(at + 1);
            assert(next.drop_last() == touches@.take(at as int));
            assert(next.last() == touches@[at as int]);
        }
        let point = touches[at];
        if point.surface == surface {
            events.push(
                InputEvent::Touch {
                    device_id: TOUCH_DEVICE,
                    id: point.id,
                    phase: TouchPhase::Cancel,
                    pos: point.last_position,
                },
            );
        }
        at += 1;
    }
    proof {
        assert(touches@.take(at as int) == touches@);
    }
    if events.len() > 0 {
        events.push(InputEvent::PointerGone);
    }
    events
}

/// The contacts that do not lie on a surface.
fn off_surface(touches: &Vec<TouchState>, surface: SurfaceId) -> (kept: Vec<TouchState>)
    ensures
        kept@ == touches_off(touches@, surface),
{
    let mut kept: Vec<TouchState> = Vec::new();
    let mut at: usize = 0;
    while at < touches.len()
        invariant
            at <= touches.len(),
            kept@ == touches_off(touches@.take(at as int), surface),
        decreases touches.len() - at,
    {
        proof {
            let next = touches@.take(at + 1);
            assert(next.drop_last() == touches@.take(at as int));
            assert(next.last() == touches@[at as int]);
        }
        let point = touches[at];
        if point.surface != surface {
            kept.push(point);
        }
        at += 1;
    }
    proof {
        assert(touches@.take(at as int) == touches@);
    }
    kept
}

/// The dispatcher's state: the registered surfaces, the active touch
/// contacts and the seat's devices.
///
/// A new context is well-formed (`ContextModel::wf`) and every handler keeps
/// it so. The handlers take no precondition: an event for a surface or a
/// contact that is not known is dropped.
pub struct Context {
    apps: Vec<LayerApp>,
    touches: Vec<TouchState>,
    seat: SeatDevices,
}

impl View for Context {
    type V = ContextModel;

    closed spec fn view(&self) -> ContextModel {
        ContextModel {
            apps: Seq::new(self.apps@.len(), |i: int| self.apps@[i]@),
            touches: self.touches@,
            seat: self.seat,
        }
    }
}

impl Default for Context {
    /// A context without surfaces, contacts or devices.
    fn default() -> (context: Context)
        ensures
            context@ == ContextModel::empty(),
            context@.wf(),
    {
        Context::new()
    }
}

impl Context {
    /// A context without surfaces, contacts or devices.
    pub fn new() -> (context: Context)
        ensures
            context@ == ContextModel::empty(),
            context@.wf(),
    {
        let context = Context { apps: Vec::new(), touches: Vec::new(), seat: SeatDevices::new() };
        assert(context@.apps =~= Seq::empty());
        assert(forall|id: SurfaceId, k: int| !context@.is_first_app(id, k));
        context
    }

    /// Where the surface registered under `id` stands.
    fn find_app(&self, id: SurfaceId) -> (found: Option<usize>)
        ensures
            match found {
                Some(index) => {
                    &&& index < self.apps.len()
                    &&& self@.is_first_app(id, index as int)
                    &&& self@.has_app(id)
                    &&& self@.app_index(id) == index
                    &&& self@.app(id) == self.apps@[index as int]@
                },
                None => !self@.has_app(id),
            },
    {
        let mut index: usize = 0;
        while index < self.apps.len()
            invariant
                index <= self.apps.len(),
                forall|j: int| 0 <= j < index ==> (#[trigger] self@.apps[j]).id != id,
            decreases self.apps.len() - index,
        {
            if self.apps[index].id() == id {
                proof {
                    lemma_first_app(self@, id, index as int);
                }
                return Some(index);
            }
            index += 1;
        }
        proof {
            lemma_has_app(self@, id);
        }
        None
    }

    /// The number of registered surfaces.
    pub fn len(&self) -> (count: usize)
        ensures
            count == self@.apps.len(),
    {
        self.apps.len()
    }

    /// The state of the surface registered under `id`.
    pub fn app(&self, id: SurfaceId) -> (app: Option<&LayerApp>)
        ensures
            app is Some <==> self@.has_app(id),
            app matches Some(found) ==> found@ == self@.app(id),
    {
        match self.find_app(id) {
            Some(index) => Some(&self.apps[index]),
            None => None,
        }
    }

    /// Registers a surface under `id`, with the input-region policy of its
    /// placement.
    ///
    /// Returns the handle by which the embedder ends the surface, and the
    /// surface's frame scheduler for the interface engine's repaint hook.
    /// An identity that is already registered starts over with a fresh
    /// state.
    pub fn new_layer_app(&mut self, id: SurfaceId, opts: &LayerAppOpts) -> (handles: (
        LayerAppHandle,
        FrameScheduler,
    ))
        ensures
            final(self)@ == old(self)@.register(id, opts.input_regions),
            old(self)@.wf() ==> final(self)@.wf(),
    {
        let input_regions = opts.input_regions;
        let app = LayerApp::new(id, input_regions);
        let handles = (app.handle(), app.scheduler());
        match self.find_app(id) {
            Some(index) => {
                self.apps[index] = app;
                proof {
                    assert(self@.apps =~= old(self)@.apps.update(
                        index as int,
                        AppModel::fresh(id, input_regions),
                    ));
                    lemma_update_app(old(self)@, index as int, AppModel::fresh(id, input_regions));
                }
            },
            None => {
                self.apps.push(app);
                proof {
                    let before = old(self)@;
                    let after = self@;
                    assert(after.apps =~= before.apps.push(AppModel::fresh(id, input_regions)));
                    if before.wf() {
                        lemma_has_app(before, id);
                        assert forall|i: int| 0 <= i < after.touches.len() implies after.has_app(
                            (#[trigger] after.touches[i]).surface,
                        ) by {
                            let surface = before.touches[i].surface;
                            assert(before.has_app(surface));
                            lemma_has_app(before, surface);
                            let k = before.app_index(surface);
                            assert(after.apps[k].id == surface);
                            lemma_has_app(after, surface);
                        }
                    }
                }
            },
        }
        handles
    }

    /// Takes a configure event for the surface `surface`, which reports the
    /// logical size `reported`.
    ///
    /// A size without extent in either dimension is replaced by the
    /// fallback size; any other is adopted as it is. The first configure of
    /// a surface returns the frame to draw.
    pub fn configure(&mut self, surface: SurfaceId, reported: Size) -> (frame: Option<Frame>)
        ensures
            final(self)@ == old(self)@.configure(surface, reported),
            frame_view(frame) == old(self)@.configure_frame(surface, reported),
            old(self)@.wf() ==> final(self)@.wf(),
    {
        match self.find_app(surface) {
            Some(index) => {
                let frame = self.apps[index].configure(reported);
                proof {
                    let app = old(self)@.app(surface).configured(reported);
                    assert(self@.apps =~= old(self)@.apps.update(index as int, app));
                    lemma_update_app(old(self)@, index as int, app);
                }
                frame
            },
            None => None,
        }
    }

    /// Takes an integer scale that the compositor announced for the surface
    /// `surface`.
    ///
    /// The scale is ignored while the surface is under fractional scaling,
    /// that is while its stored scale is not a whole number. Where it
    /// changes the surface's scale, the frame to draw at once is returned;
    /// its logical size is also the new destination size of the surface's
    /// viewport.
    pub fn scale_factor_changed(&mut self, surface: SurfaceId, factor: i32) -> (frame: Option<
        Frame,
    >)
        ensures
            final(self)@ == old(self)@.integer_scale(surface, factor),
            frame_view(frame) == old(self)@.integer_scale_frame(surface, factor),
            old(self)@.wf() ==> final(self)@.wf(),
    {
        match self.find_app(surface) {
            Some(index) => {
                let frame = self.apps[index].scale_factor_changed(factor);
                proof {
                    let app = old(self)@.app(surface).integer_rescaled(factor);
                    assert(self@.apps =~= old(self)@.apps.update(index as int, app));
                    lemma_update_app(old(self)@, index as int, app);
                }
                frame
            },
            None => None,
        }
    }

    /// Takes a fractional scale that the compositor announced for the
    /// surface `surface`, in 120ths.
    ///
    /// A fractional scale always applies. Where it changes the surface's
    /// scale, the frame to draw at once is returned; its logical size is
    /// also the new destination size of the surface's viewport.
    pub fn preferred_scale(&mut self, surface: SurfaceId, numerator: u32) -> (frame: Option<Frame>)
        ensures
            final(self)@ == old(self)@.fractional_scale(surface, numerator),
            frame_view(frame) == old(self)@.fractional_scale_frame(surface, numerator),
            old(self)@.wf() ==> final(self)@.wf(),
    {
        match self.find_app(surface) {
            Some(index) => {
                let frame = self.apps[index].preferred_scale(numerator);
                proof {
                    let app = old(self)@.app(surface).rescaled(Scale::of_fraction(numerator));
                    assert(self@.apps =~= old(self)@.apps.update(index as int, app));
                    lemma_update_app(old(self)@, index as int, app);
                }
                frame
            },
            None => None,
        }
    }

    /// The keyboard focus entered the surface `surface`.
    pub fn enter(&mut self, surface: SurfaceId)
        ensures
            final(self)@ == old(self)@.focus(surface, true),
            old(self)@.wf() ==> final(self)@.wf(),
    {
        self.set_focus(surface, true);
    }

    /// The keyboard focus left the surface `surface`.
    pub fn leave(&mut self, surface: SurfaceId)
        ensures
            final(self)@ == old(self)@.focus(surface, false),
            old(self)@.wf() ==> final(self)@.wf(),
    {
        self.set_focus(surface, false);
    }

    fn set_focus(&mut self, surface: SurfaceId, focus: bool)
        ensures
            final(self)@ == old(self)@.focus(surface, focus),
            old(self)@.wf() ==> final(self)@.wf(),
    {
        match self.find_app(surface) {
            Some(index) => {
                self.apps[index].set_focus(focus);
                proof {
                    let app = old(self)@.app(surface).focused(focus);
                    assert(self@.apps =~= old(self)@.apps.update(index as int, app));
                    lemma_update_app(old(self)@, index as int, app);
                }
            },
            None => {},
        }
    }

    /// Where the surface that receives keyboard input stands.
    fn find_focused(&self) -> (found: Option<usize>)
        ensures
            match found {
                Some(index) => {
                    &&& index < self.apps.len()
                    &&& self@.has_focus()
                    &&& self@.focus_index() == index
                    &&& self@.focused() == self.apps@[index as int]@
                },
                None => !self@.has_focus(),
            },
    {
        let mut index: usize = 0;
        while index < self.apps.len()
            invariant
                index <= self.apps.len(),
                forall|j: int| 0 <= j < index ==> !(#[trigger] self@.apps[j]).keyboard_focus,
            decreases self.apps.len() - index,
        {
            if self.apps[index].keyboard_focus() {
                proof {
                    lemma_first_focused(self@, index as int);
                }
                return Some(index);
            }
            index += 1;
        }
        proof {
            assert forall|k: int| !self@.is_first_focused(k) by {
                if 0 <= k < self@.apps.len() {
                    assert(!self@.apps[k].keyboard_focus);
                }
            }
        }
        None
    }

    /// The surface that receives keyboard input, if any holds the focus.
    pub fn focused(&self) -> (app: Option<&LayerApp>)
        ensures
            app is Some <==> self@.has_focus(),
            app matches Some(found) ==> found@ == self@.focused(),
    {
        match self.find_focused() {
            Some(index) => Some(&self.apps[index]),
            None => None,
        }
    }

    /// Takes a key press (`pressed`) or release.
    ///
    /// The surface with the keyboard focus receives a text event, if the key
    /// produced printable text, and then a key event, if the key's symbol is
    /// known. Returns the surface whose interface has to be asked to
    /// repaint: the focused one, if it received anything. Without a focused
    /// surface the key is dropped.
    pub fn key_event(&mut self, event: KeyEvent, pressed: bool) -> (repaint: Option<SurfaceId>)
        ensures
            final(self)@ == old(self)@.key_event(event, pressed),
            repaint == old(self)@.key_repaint(event, pressed),
            old(self)@.wf() ==> final(self)@.wf(),
    {
        match self.find_focused() {
            Some(index) => {
                let events = translate_key(event, pressed, self.apps[index].modifiers());
                let appended = events.len() > 0;
                self.apps[index].push_events(events);
                proof {
                    let app = old(self)@.focused().append(events@);
                    assert(self@.apps =~= old(self)@.apps.update(index as int, app));
                    lemma_update_app(old(self)@, index as int, app);
                }
                if appended {
                    Some(self.apps[index].id())
                } else {
                    None
                }
            },
            None => None,
        }
    }

    /// Takes a key press.
    pub fn press_key(&mut self, event: KeyEvent) -> (repaint: Option<SurfaceId>)
        ensures
            final(self)@ == old(self)@.key_event(event, true),
            repaint == old(self)@.key_repaint(event, true),
            old(self)@.wf() ==> final(self)@.wf(),
    {
        self.key_event(event, true)
    }

    /// Takes a key release.
    pub fn release_key(&mut self, event: KeyEvent) -> (repaint: Option<SurfaceId>)
        ensures
            final(self)@ == old(self)@.key_event(event, false),
            repaint == old(self)@.key_repaint(event, false),
            old(self)@.wf() ==> final(self)@.wf(),
    {
        self.key_event(event, false)
    }

    /// Takes the keyboard's modifier state. The surface with the keyboard
    /// focus holds it from now on; no event is produced, and no repaint is
    /// asked for.
    pub fn update_modifiers(&mut self, keyboard: KeyboardModifiers)
        ensures
            final(self)@ == old(self)@.update_modifiers(keyboard),
            old(self)@.wf() ==> final(self)@.wf(),
    {
        match self.find_focused() {
            Some(index) => {
                self.apps[index].set_modifiers(Modifiers::from_keyboard(keyboard));
                proof {
                    let app = old(self)@.focused().with_modifiers(Modifiers::of_keyboard(keyboard));
                    assert(self@.apps =~= old(self)@.apps.update(index as int, app));
                    lemma_update_app(old(self)@, index as int, app);
                }
            },
            None => {},
        }
    }

    /// The seat's devices.
    pub fn seat(&self) -> (seat: SeatDevices)
        ensures
            seat == self@.seat,
    {
        self.seat
    }

    /// The seat gained a capability. Returns whether its device has to be
    /// acquired now: only where none is held.
    pub fn new_capability(&mut self, capability: Capability) -> (acquire: bool)
        ensures
            final(self)@ == old(self)@.new_capability(capability),
            acquire == !old(self)@.seat.holds(capability),
            old(self)@.wf() ==> final(self)@.wf(),
    {
        let acquire = self.seat.new_capability(capability);
        proof {
            self.lemma_same_apps(*old(self));
        }
        acquire
    }

    /// The seat lost a capability. Returns whether its device has to be
    /// released now: only where one is held.
    pub fn remove_capability(&mut self, capability: Capability) -> (release: bool)
        ensures
            final(self)@ == old(self)@.remove_capability(capability),
            release == old(self)@.seat.holds(capability),
            old(self)@.wf() ==> final(self)@.wf(),
    {
        let release = self.seat.remove_capability(capability);
        proof {
            self.lemma_same_apps(*old(self));
        }
        release
    }

    /// Takes one pointer event.
    ///
    /// Entering a surface is not forwarded, which avoids a jump of the
    /// pointer; every other event is translated and added to the pending
    /// input of its surface. Returns the surface whose interface has to be
    /// asked to repaint: the event's, if the event was forwarded. An event
    /// for a surface that is not registered is dropped.
    pub fn pointer_event(&mut self, event: PointerEvent) -> (repaint: Option<SurfaceId>)
        ensures
            final(self)@ == old(self)@.pointer_event(event),
            repaint == old(self)@.pointer_repaint(event),
            old(self)@.wf() ==> final(self)@.wf(),
    {
        match self.find_app(event.surface) {
            Some(index) => {
                let modifiers = self.apps[index].modifiers();
                match translate_pointer(event.kind, event.position, modifiers) {
                    Some(input) => {
                        let mut events: Vec<InputEvent> = Vec::new();
                        events.push(input);
                        self.apps[index].push_events(events);
                        proof {
                            let app = old(self)@.app(event.surface).append(seq![input]);
                            assert(events@ =~= seq![input]);
                            assert(self@.apps =~= old(self)@.apps.update(index as int, app));
                            lemma_update_app(old(self)@, index as int, app);
                        }
                        Some(event.surface)
                    },
                    None => None,
                }
            },
            None => None,
        }
    }

    /// Takes a batch of pointer events, in order.
    ///
    /// Returns the surfaces whose interfaces have to be asked to repaint:
    /// one entry for each event that was forwarded, in the events' order.
    pub fn pointer_frame(&mut self, events: &Vec<PointerEvent>) -> (repaints: Vec<SurfaceId>)
        ensures
            final(self)@ == old(self)@.pointer_frame(events@),
            repaints@ == old(self)@.pointer_repaints(events@),
            old(self)@.wf() ==> final(self)@.wf(),
    {
        let mut repaints: Vec<SurfaceId> = Vec::new();
        let mut at: usize = 0;
        while at < events.len()
            invariant
                at <= events.len(),
                self@ == old(self)@.pointer_frame(events@.take(at as int)),
                repaints@ == old(self)@.pointer_repaints(events@.take(at as int)),
                old(self)@.wf() ==> self@.wf(),
            decreases events.len() - at,
        {
            proof {
                let next = events@.take(at + 1);
                assert(next.drop_last() == events@.take(at as int));
                assert(next.last() == events@[at as int]);
            }
            if let Some(surface) = self.pointer_event(events[at]) {
                repaints.push(surface);
            }
            at += 1;
        }
        proof {
            assert(events@.take(at as int) == events@);
        }
        repaints
    }

    /// Where the contact with the identifier `touch` stands.
    fn find_touch(&self, touch: i32) -> (found: Option<usize>)
        ensures
            match found {
                Some(index) => {
                    &&& index < self.touches.len()
                    &&& self@.has_touch(touch)
                    &&& self@.touch_index(touch) == index
                    &&& self@.touch(touch) == self.touches@[index as int]
                    &&& self.touches@[index as int].id == touch
                },
                None => !self@.has_touch(touch) && forall|j: int|
                    0 <= j < self.touches.len() ==> (#[trigger] self.touches@[j]).id != touch,
            },
    {
        let mut index: usize = 0;
        while index < self.touches.len()
            invariant
                index <= self.touches.len(),
                forall|j: int| 0 <= j < index ==> (#[trigger] self@.touches[j]).id != touch,
            decreases self.touches.len() - index,
        {
            if self.touches[index].id == touch {
                proof {
                    lemma_first_touch(self@, touch, index as int);
                }
                return Some(index);
            }
            index += 1;
        }
        proof {
            lemma_has_touch(self@, touch);
        }
        None
    }

    /// The active touch contacts, in the order in which they went down.
    pub fn touches(&self) -> (touches: &Vec<TouchState>)
        ensures
            touches@ == self@.touches,
    {
        &self.touches
    }

    /// The active contact with the identifier `touch`.
    pub fn touch(&self, touch: i32) -> (point: Option<TouchState>)
        ensures
            point is Some <==> self@.has_touch(touch),
            point matches Some(found) ==> found == self@.touch(touch),
    {
        match self.find_touch(touch) {
            Some(index) => Some(self.touches[index]),
            None => None,
        }
    }

    /// A finger went down on the surface `surface` at `pos`, as the contact
    /// `touch`.
    ///
    /// The surface is told, in this order, that the pointer is gone, that
    /// the contact started, and that the primary button was pressed at the
    /// contact; the contact is remembered. Returns the surface whose
    /// interface has to be asked to repaint. On a surface that is not
    /// registered nothing happens.
    pub fn down(&mut self, surface: SurfaceId, touch: i32, pos: Pos) -> (repaint: Option<
        SurfaceId,
    >)
        ensures
            final(self)@ == old(self)@.down(surface, touch, pos),
            repaint == old(self)@.down_repaint(surface),
            old(self)@.wf() ==> final(self)@.wf(),
    {
        match self.find_app(surface) {
            Some(index) => {
                let events = translate_touch_down(touch, pos, self.apps[index].modifiers());
                self.apps[index].push_events(events);
                let point = TouchState { id: touch, surface, last_position: pos };
                let ghost app = old(self)@.app(surface).append(events@);
                let ghost mid = ContextModel {
                    apps: old(self)@.apps.update(index as int, app),
                    ..old(self)@
                };
                proof {
                    assert(self@.apps =~= mid.apps);
                    assert(self@ == mid);
                    lemma_update_app(old(self)@, index as int, app);
                    assert(mid.is_first_app(surface, index as int));
                }
                match self.find_touch(touch) {
                    Some(at) => {
                        self.touches[at] = point;
                        proof {
                            assert(self@.apps =~= mid.apps);
                            assert(self@.touches =~= old(self)@.touches_with(point)) by {
                                assert(old(self)@.is_first_touch(touch, at as int));
                                lemma_first_touch(old(self)@, touch, at as int);
                            }
                            if old(self)@.wf() {
                                assert(distinct_touches(self@.touches)) by {
                                    assert forall|i: int, j: int|
                                        0 <= i < j < self@.touches.len() implies (
                                    #[trigger] self@.touches[i]).id != (
                                    #[trigger] self@.touches[j]).id by {
                                        assert(mid.touches[i].id != mid.touches[j].id);
                                    }
                                }
                                assert forall|i: int|
                                    0 <= i < self@.touches.len() implies self@.has_app(
                                    (#[trigger] self@.touches[i]).surface,
                                ) by {
                                    if i != at {
                                        assert(mid.has_app(mid.touches[i].surface));
                                    }
                                    let id = self@.touches[i].surface;
                                    assert(mid.has_app(id));
                                    assert(self@.is_first_app(id, mid.app_index(id)));
                                }
                            }
                        }
                    },
                    None => {
                        self.touches.push(point);
                        proof {
                            assert(self@.apps =~= mid.apps);
                            assert(!old(self)@.has_touch(touch)) by {
                                lemma_has_touch(old(self)@, touch);
                                lemma_has_touch(mid, touch);
                            }
                            assert(self@.touches =~= old(self)@.touches_with(point));
                            if old(self)@.wf() {
                                assert(distinct_touches(self@.touches)) by {
                                    assert forall|i: int, j: int|
                                        0 <= i < j < self@.touches.len() implies (
                                    #[trigger] self@.touches[i]).id != (
                                    #[trigger] self@.touches[j]).id by {
                                        if j < mid.touches.len() {
                                            assert(mid.touches[i].id != mid.touches[j].id);
                                        } else {
                                            assert(mid.touches[i].id != touch);
                                        }
                                    }
                                }
                                assert forall|i: int|
                                    0 <= i < self@.touches.len() implies self@.has_app(
                                    (#[trigger] self@.touches[i]).surface,
                                ) by {
                                    if i < mid.touches.len() {
                                        assert(mid.has_app(mid.touches[i].surface));
                                    }
                                    let id = self@.touches[i].surface;
                                    assert(mid.has_app(id));
                                    assert(self@.is_first_app(id, mid.app_index(id)));
                                }
                            }
                        }
                    },
                }
                Some(surface)
            },
            None => None,
        }
    }

    /// The finger of the contact `touch` was lifted.
    ///
    /// The contact's surface is told, in this order, that the contact ended,
    /// that the primary button was released where the contact was last
    /// seen, and that the pointer is gone; the contact is forgotten.
    /// Returns the surface whose interface has to be asked to repaint. A
    /// contact that is not known is ignored.
    pub fn up(&mut self, touch: i32) -> (repaint: Option<SurfaceId>)
        ensures
            final(self)@ == old(self)@.up(touch),
            repaint == old(self)@.touch_repaint(touch),
            old(self)@.wf() ==> final(self)@.wf(),
    {
        match self.find_touch(touch) {
            Some(at) => {
                let point = self.touches.remove(at);
                let ghost mid = ContextModel {
                    touches: old(self)@.touches.remove(at as int),
                    ..old(self)@
                };
                proof {
                    assert(self@.apps =~= old(self)@.apps);
                    assert(self@ == mid);
                    if old(self)@.wf() {
                        assert(distinct_touches(mid.touches)) by {
                            assert forall|i: int, j: int|
                                0 <= i < j < mid.touches.len() implies (
                            #[trigger] mid.touches[i]).id != (#[trigger] mid.touches[j]).id by {
                                let a = if i < at {
                                    i
                                } else {
                                    i + 1
                                };
                                let b = if j < at {
                                    j
                                } else {
                                    j + 1
                                };
                                assert(old(self)@.touches[a].id != old(self)@.touches[b].id);
                            }
                        }
                        assert forall|i: int| 0 <= i < mid.touches.len() implies mid.has_app(
                            (#[trigger] mid.touches[i]).surface,
                        ) by {
                            let a = if i < at {
                                i
                            } else {
                                i + 1
                            };
                            let id = old(self)@.touches[a].surface;
                            assert(old(self)@.has_app(id));
                            assert(mid.is_first_app(id, old(self)@.app_index(id)));
                        }
                        assert(mid.wf());
                    }
                }
                match self.find_app(point.surface) {
                    Some(index) => {
                        let events = translate_touch_up(
                            touch,
                            point.last_position,
                            self.apps[index].modifiers(),
                        );
                        self.apps[index].push_events(events);
                        proof {
                            lemma_first_app(old(self)@, point.surface, index as int);
                            let app = mid.app(point.surface).append(events@);
                            assert(self@.apps =~= mid.apps.update(index as int, app));
                            lemma_update_app(mid, index as int, app);
                        }
                        Some(point.surface)
                    },
                    None => {
                        proof {
                            assert(!old(self)@.has_app(point.surface)) by {
                                if old(self)@.has_app(point.surface) {
                                    assert(mid.is_first_app(
                                        point.surface,
                                        old(self)@.app_index(point.surface),
                                    ));
                                }
                            }
                        }
                        None
                    },
                }
            },
            None => None,
        }
    }

    /// The finger of the contact `touch` moved to `pos`.
    ///
    /// The contact's surface is told that the contact moved and that the
    /// pointer moved with it, and the contact's position is updated.
    /// Returns the surface whose interface has to be asked to repaint. A
    /// contact that is not known, or whose surface is gone, is ignored.
    pub fn motion(&mut self, touch: i32, pos: Pos) -> (repaint: Option<SurfaceId>)
        ensures
            final(self)@ == old(self)@.motion(touch, pos),
            repaint == old(self)@.touch_repaint(touch),
            old(self)@.wf() ==> final(self)@.wf(),
    {
        match self.find_touch(touch) {
            Some(at) => {
                let point = self.touches[at];
                match self.find_app(point.surface) {
                    Some(index) => {
                        let events = translate_touch_motion(touch, pos);
                        self.apps[index].push_events(events);
                        let ghost app = old(self)@.app(point.surface).append(events@);
                        let ghost mid = ContextModel {
                            apps: old(self)@.apps.update(index as int, app),
                            ..old(self)@
                        };
                        proof {
                            assert(self@.apps =~= mid.apps);
                            assert(self@ == mid);
                            lemma_update_app(old(self)@, index as int, app);
                        }
                        let moved = TouchState { last_position: pos, ..point };
                        self.touches[at] = moved;
                        proof {
                            assert(self@.apps =~= mid.apps);
                            assert(self@.touches =~= mid.touches.update(at as int, moved));
                            if old(self)@.wf() {
                                assert(distinct_touches(self@.touches)) by {
                                    assert forall|i: int, j: int|
                                        0 <= i < j < self@.touches.len() implies (
                                    #[trigger] self@.touches[i]).id != (
                                    #[trigger] self@.touches[j]).id by {
                                        assert(mid.touches[i].id != mid.touches[j].id);
                                    }
                                }
                                assert forall|i: int|
                                    0 <= i < self@.touches.len() implies self@.has_app(
                                    (#[trigger] self@.touches[i]).surface,
                                ) by {
                                    let id = mid.touches[i].surface;
                                    assert(mid.has_app(id));
                                    assert(self@.is_first_app(id, mid.app_index(id)));
                                }
                            }
                        }
                        Some(point.surface)
                    },
                    None => None,
                }
            },
            None => None,
        }
    }

    /// The compositor cancelled all touch contacts.
    ///
    /// Every surface is told of the cancellation of each contact on it and
    /// then, once, that the pointer is gone; all contacts are forgotten.
    /// Returns the surfaces whose interfaces have to be asked to repaint:
    /// those that had a contact, in the order of their registration.
    pub fn cancel(&mut self) -> (repaints: Vec<SurfaceId>)
        ensures
            final(self)@ == old(self)@.cancel(),
            repaints@ == old(self)@.cancel_repaints(),
            old(self)@.wf() ==> final(self)@.wf(),
    {
        let mut repaints: Vec<SurfaceId> = Vec::new();
        let mut index: usize = 0;
        while index < self.apps.len()
            invariant
                index <= self.apps.len(),
                self.apps.len() == old(self).apps.len(),
                self.touches == old(self).touches,
                self.seat == old(self).seat,
                forall|j: int|
                    0 <= j < index ==> (#[trigger] self.apps@[j])@ == old(self)@.apps[j].append(
                        cancel_events(old(self)@.touches, old(self)@.apps[j].id),
                    ),
                forall|j: int|
                    index <= j < self.apps.len() ==> (#[trigger] self.apps@[j])@ == old(
                        self,
                    )@.apps[j],
                repaints@ == cancelled_surfaces(
                    old(self)@.apps.take(index as int),
                    old(self)@.touches,
                ),
            decreases self.apps.len() - index,
        {
            let id = self.apps[index].id();
            let events = cancellation(&self.touches, id);
            proof {
                let next = old(self)@.apps.take(index + 1);
                assert(next.drop_last() == old(self)@.apps.take(index as int));
                assert(next.last() == old(self)@.apps[index as int]);
            }
            if events.len() > 0 {
                repaints.push(id);
            }
            self.apps[index].push_events(events);
            index += 1;
        }
        self.touches.clear();
        proof {
            assert(old(self)@.apps.take(index as int) == old(self)@.apps);
            assert(self@.apps =~= old(self)@.cancel().apps);
            if old(self)@.wf() {
                assert forall|i: int, j: int| 0 <= i < j < self@.apps.len() implies (
                #[trigger] self@.apps[i]).id != (#[trigger] self@.apps[j]).id by {
                    assert(old(self)@.apps[i].id != old(self)@.apps[j].id);
                }
                assert forall|i: int| 0 <= i < self@.apps.len() implies (
                #[trigger] self@.apps[i]).wf() by {
                    assert(old(self)@.apps[i].wf());
                }
            }
        }
        repaints
    }

    /// Takes the delivery of the frame callback of the surface `surface`,
    /// the surface's exit flag being `exit`.
    ///
    /// A surface whose exit was asked for is removed, together with the
    /// contacts on it, and the caller delivers the exit notification; any
    /// other surface is drawn. A callback for a surface that is not
    /// registered is ignored.
    pub fn frame_with(&mut self, surface: SurfaceId, exit: bool) -> (action: FrameAction)
        ensures
            final(self)@ == old(self)@.frame(surface, exit),
            action.answers(old(self)@, surface, exit),
            old(self)@.wf() ==> final(self)@.wf(),
    {
        match self.find_app(surface) {
            Some(index) => {
                if exit {
                    let kept = off_surface(&self.touches, surface);
                    self.touches = kept;
                    let app = self.apps.remove(index);
                    app.retire();
                    proof {
                        assert(self@.apps =~= old(self)@.apps.remove(index as int));
                        if old(self)@.wf() {
                            lemma_remove_app(old(self)@, surface);
                        }
                    }
                    FrameAction::Exit
                } else {
                    let frame = self.apps[index].draw();
                    proof {
                        let app = old(self)@.app(surface).drained();
                        assert(self@.apps =~= old(self)@.apps.update(index as int, app));
                        lemma_update_app(old(self)@, index as int, app);
                    }
                    FrameAction::Draw(frame)
                }
            },
            None => FrameAction::Ignored,
        }
    }

    /// Takes the delivery of the frame callback of the surface `surface`.
    ///
    /// The surface's exit flag is read at this moment, and what follows is
    /// `frame_with` on the value found.
    pub fn frame(&mut self, surface: SurfaceId) -> (action: FrameAction)
        ensures
            exists|exit: bool|
                #![trigger old(self)@.frame(surface, exit)]
                final(self)@ == old(self)@.frame(surface, exit) && action.answers(
                    old(self)@,
                    surface,
                    exit,
                ),
            !old(self)@.has_app(surface) ==> final(self)@ == old(self)@ && action is Ignored,
            old(self)@.wf() ==> final(self)@.wf(),
    {
        let exit = match self.find_app(surface) {
            Some(index) => self.apps[index].exit_requested(),
            None => false,
        };
        self.frame_with(surface, exit)
    }

    /// Two contexts with the same surfaces and contacts are well-formed
    /// together.
    proof fn lemma_same_apps(self, other: Context)
        requires
            self.apps == other.apps,
            self.touches == other.touches,
        ensures
            self@.apps == other@.apps,
            self@.touches == other@.touches,
            other@.wf() ==> self@.wf(),
    {
        assert(self@.apps =~= other@.apps);
        if other@.wf() {
            assert forall|i: int| 0 <= i < self@.touches.len() implies self@.has_app(
                (#[trigger] self@.touches[i]).surface,
            ) by {
                let surface = other@.touches[i].surface;
                assert(other@.has_app(surface));
                assert(self@.is_first_app(surface, other@.app_index(surface)));
            }
        }
    }
}

} // verus!
