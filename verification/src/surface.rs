//! Surfaces and their per-surface application state.
use crate::geometry::Size;
use crate::input::{InputEvent, Modifiers};
use crate::region::InputRegions;
use crate::scale::Scale;
use crate::scheduler::{FrameScheduler, FrameState, LayerAppHandle};
use vstd::prelude::*;

verus! {

/// Width that a surface is taken to have until the compositor names one,
/// and whenever the compositor names a size without extent.
pub const DEFAULT_WIDTH: u32 = 1920;

/// Height that goes with `DEFAULT_WIDTH`.
pub const DEFAULT_HEIGHT: u32 = 1080;

/// The identity of an on-screen surface: the number under which the
/// display protocol knows it. No two live surfaces share one.
#[derive(Clone, Copy, Debug, PartialEq, Eq, Hash, Structural)]
pub struct SurfaceId(pub u32);

/// The size that stands in for one without extent.
pub open spec fn fallback_size() -> Size {
    Size { width: DEFAULT_WIDTH, height: DEFAULT_HEIGHT }
}

/// The logical size that a surface adopts when the compositor reports
/// `reported`: the fallback where either dimension is zero, else the
/// reported size as it is.
pub open spec fn adopted_size(reported: Size) -> Size {
    if reported.degenerate() {
        fallback_size()
    } else {
        reported
    }
}

/// What one frame is drawn from.
#[derive(Clone, Debug, PartialEq, Eq)]
pub struct Frame {
    /// The surface's logical size.
    pub size: Size,
    /// The surface's scale, which is also the interface's pixel density.
    pub scale: Scale,
    /// The size of the presentation target in physical pixels: the logical
    /// size times the scale, rounded down.
    pub physical: Size,
    /// The input that accumulated since the last frame, oldest first.
    pub events: Vec<InputEvent>,
    /// The modifier keys held.
    pub modifiers: Modifiers,
    /// The policy by which the input region is set once the interface has
    /// run.
    pub input_regions: InputRegions,
}

/// A frame, with its events as a sequence.
pub struct FrameModel {
    pub size: Size,
    pub scale: Scale,
    pub physical: Size,
    pub events: Seq<InputEvent>,
    pub modifiers: Modifiers,
    pub input_regions: InputRegions,
}

impl View for Frame {
    type V = FrameModel;

    open spec fn view(&self) -> FrameModel {
        FrameModel {
            size: self.size,
            scale: self.scale,
            physical: self.physical,
            events: self.events@,
            modifiers: self.modifiers,
            input_regions: self.input_regions,
        }
    }
}

/// The frame that a handler returned, if it returned one.
pub open spec fn frame_view(frame: Option<Frame>) -> Option<FrameModel> {
    match frame {
        Some(frame) => Some(frame@),
        None => None,
    }
}

/// The state of one registered surface, as contracts speak of it.
pub struct AppModel {
    pub id: SurfaceId,
    /// Input that has not been handed to the interface yet, oldest first.
    pub events: Seq<InputEvent>,
    pub modifiers: Modifiers,
    pub input_regions: InputRegions,
    /// Whether the compositor has yet to configure the surface.
    pub first_configure: bool,
    /// The logical size.
    pub size: Size,
    pub scale: Scale,
    pub keyboard_focus: bool,
}

impl AppModel {
    /// A surface as registration leaves it: nothing pending, no modifier
    /// held, not configured, of the fallback size, at scale one, without
    /// the keyboard focus.
    pub open spec fn fresh(id: SurfaceId, input_regions: InputRegions) -> AppModel {
        AppModel {
            id,
            events: Seq::empty(),
            modifiers: Modifiers::none(),
            input_regions,
            first_configure: true,
            size: fallback_size(),
            scale: Scale::one(),
            keyboard_focus: false,
        }
    }

    /// The invariant of a surface: its logical size has extent.
    pub open spec fn wf(self) -> bool {
        !self.size.degenerate()
    }

    /// The surface with `events` added to its pending input.
    pub open spec fn append(self, events: Seq<InputEvent>) -> AppModel {
        AppModel { events: self.events + events, ..self }
    }

    /// The surface with nothing pending.
    pub open spec fn drained(self) -> AppModel {
        AppModel { events: Seq::empty(), ..self }
    }

    /// The frame that a draw of the surface starts from.
    pub open spec fn snapshot(self) -> FrameModel {
        FrameModel {
            size: self.size,
            scale: self.scale,
            physical: self.scale.scaled_size(self.size),
            events: self.events,
            modifiers: self.modifiers,
            input_regions: self.input_regions,
        }
    }

    /// The surface with the size that it adopts for a reported one.
    pub open spec fn resized(self, reported: Size) -> AppModel {
        AppModel { size: adopted_size(reported), ..self }
    }

    /// The surface after a configure event: resized, and after its first
    /// configure also drawn.
    pub open spec fn configured(self, reported: Size) -> AppModel {
        if self.first_configure {
            AppModel { first_configure: false, ..self.resized(reported).drained() }
        } else {
            self.resized(reported)
        }
    }

    /// The frame that a configure event makes the surface draw: one after
    /// the first configure, none after a later one.
    pub open spec fn configure_frame(self, reported: Size) -> Option<FrameModel> {
        if self.first_configure {
            Some(self.resized(reported).snapshot())
        } else {
            None
        }
    }

    /// The surface after its scale was set to `scale`: unchanged where that
    /// is the scale it has, else rescaled and drawn.
    pub open spec fn rescaled(self, scale: Scale) -> AppModel {
        if self.scale == scale {
            self
        } else {
            AppModel { scale, ..self.drained() }
        }
    }

    /// The frame that setting the scale makes the surface draw: one where
    /// the scale changes, none where it stays.
    pub open spec fn rescale_frame(self, scale: Scale) -> Option<FrameModel> {
        if self.scale == scale {
            None
        } else {
            Some(AppModel { scale, ..self }.snapshot())
        }
    }

    /// Whether an integer scale from the compositor is let through: only
    /// while the surface's scale is itself a whole number. A surface under
    /// fractional scaling ignores integer scales.
    pub open spec fn takes_integer_scale(self) -> bool {
        self.scale.integral()
    }

    /// The surface after the compositor announced the integer scale
    /// `factor`.
    pub open spec fn integer_rescaled(self, factor: i32) -> AppModel {
        if self.takes_integer_scale() {
            self.rescaled(Scale::of_factor(factor))
        } else {
            self
        }
    }

    /// The frame that an integer scale makes the surface draw.
    pub open spec fn integer_rescale_frame(self, factor: i32) -> Option<FrameModel> {
        if self.takes_integer_scale() {
            self.rescale_frame(Scale::of_factor(factor))
        } else {
            None
        }
    }

    /// The surface after the keyboard focus came or went: the flag is set
    /// and the interface is told.
    pub open spec fn focused(self, focus: bool) -> AppModel {
        AppModel { keyboard_focus: focus, ..self.append(seq![InputEvent::WindowFocused(focus)]) }
    }

    /// The surface with other modifiers held.
    pub open spec fn with_modifiers(self, modifiers: Modifiers) -> AppModel {
        AppModel { modifiers, ..self }
    }
}

/// The application state of one registered surface.
///
/// It holds what the handlers accumulate between two frames and what a
/// frame is drawn from. A new one is well-formed (`AppModel::wf`: its
/// logical size has extent), and every method keeps it so.
pub struct LayerApp {
    id: SurfaceId,
    scheduler: FrameScheduler,
    exit: LayerAppHandle,
    events: Vec<InputEvent>,
    modifiers: Modifiers,
    input_regions: InputRegions,
    first_configure: bool,
    size: Size,
    scale: Scale,
    keyboard_focus: bool,
}

impl View for LayerApp {
    type V = AppModel;

    closed spec fn view(&self) -> AppModel {
        AppModel {
            id: self.id,
            events: self.events@,
            modifiers: self.modifiers,
            input_regions: self.input_regions,
            first_configure: self.first_configure,
            size: self.size,
            scale: self.scale,
            keyboard_focus: self.keyboard_focus,
        }
    }
}

impl LayerApp {
    /// The state of a newly registered surface. Its frame scheduler starts
    /// in `Requested`: until the first draw no repaint signal registers a
    /// frame callback.
    pub fn new(id: SurfaceId, input_regions: InputRegions) -> (app: LayerApp)
        ensures
            app@ == AppModel::fresh(id, input_regions),
            app@.wf(),
    {
        LayerApp {
            id,
            scheduler: FrameScheduler::new(FrameState::Requested),
            exit: LayerAppHandle::new(),
            events: Vec::new(),
            modifiers: Modifiers::empty(),
            input_regions,
            first_configure: true,
            size: Size { width: DEFAULT_WIDTH, height: DEFAULT_HEIGHT },
            scale: Scale::identity(),
            keyboard_focus: false,
        }
    }

    /// The surface's identity.
    pub fn id(&self) -> (id: SurfaceId)
        ensures
            id == self@.id,
    {
        self.id
    }

    /// The logical size.
    pub fn size(&self) -> (size: Size)
        ensures
            size == self@.size,
    {
        self.size
    }

    /// The scale.
    pub fn scale(&self) -> (scale: Scale)
        ensures
            scale == self@.scale,
    {
        self.scale
    }

    /// The modifier keys held.
    pub fn modifiers(&self) -> (modifiers: Modifiers)
        ensures
            modifiers == self@.modifiers,
    {
        self.modifiers
    }

    /// The input-region policy.
    pub fn input_regions(&self) -> (policy: InputRegions)
        ensures
            policy == self@.input_regions,
    {
        self.input_regions
    }

    /// Whether the surface holds the keyboard focus.
    pub fn keyboard_focus(&self) -> (focus: bool)
        ensures
            focus == self@.keyboard_focus,
    {
        self.keyboard_focus
    }

    /// Whether the compositor has yet to configure the surface.
    pub fn first_configure(&self) -> (first: bool)
        ensures
            first == self@.first_configure,
    {
        self.first_configure
    }

    /// The input that waits for the next frame, oldest first.
    pub fn pending(&self) -> (events: &Vec<InputEvent>)
        ensures
            events@ == self@.events,
    {
        &self.events
    }

    /// The width of the presentation target in physical pixels.
    pub fn physical_width(&self) -> (width: u32)
        ensures
            width == self@.scale.scaled(self@.size.width),
    {
        self.scale.physical(self.size.width)
    }

    /// The height of the presentation target in physical pixels.
    pub fn physical_height(&self) -> (height: u32)
        ensures
            height == self@.scale.scaled(self@.size.height),
    {
        self.scale.physical(self.size.height)
    }

    /// The handle whose flag this surface reads to learn that its teardown
    /// was asked for.
    pub closed spec fn exit_handle(&self) -> LayerAppHandle {
        self.exit
    }

    /// The scheduler whose flag this surface clears when it is drawn.
    pub closed spec fn frame_scheduler(&self) -> FrameScheduler {
        self.scheduler
    }

    /// A handle by which the embedder ends the surface: the surface's own,
    /// shared.
    pub fn handle(&self) -> (handle: LayerAppHandle)
        ensures
            handle == self.exit_handle(),
    {
        self.exit.share()
    }

    /// The surface's frame scheduler, for the interface engine's repaint
    /// hook: the surface's own, shared.
    pub fn scheduler(&self) -> (scheduler: FrameScheduler)
        ensures
            scheduler == self.frame_scheduler(),
    {
        self.scheduler.share()
    }

    /// Whether the embedder has asked for the surface's teardown, at this
    /// moment.
    pub fn exit_requested(&self) -> bool {
        self.exit.exit_requested()
    }

    /// Gives up the frame request, if one is outstanding: the surface is
    /// going away.
    pub fn retire(&self) {
        self.scheduler.clear();
    }

    /// Adds events to the pending input, behind what is there.
    pub fn push_events(&mut self, events: Vec<InputEvent>)
        ensures
            final(self)@ == old(self)@.append(events@),
            old(self)@.wf() ==> final(self)@.wf(),
    {
        let mut events = events;
        self.events.append(&mut events);
    }

    /// Records that the keyboard focus came (`true`) or went (`false`), and
    /// tells the interface.
    pub fn set_focus(&mut self, focus: bool)
        ensures
            final(self)@ == old(self)@.focused(focus),
            old(self)@.wf() ==> final(self)@.wf(),
    {
        self.keyboard_focus = focus;
        self.events.push(InputEvent::WindowFocused(focus));
        assert(self.events@ == old(self).events@ + seq![InputEvent::WindowFocused(focus)]);
    }

    /// Replaces the modifier keys held.
    pub fn set_modifiers(&mut self, modifiers: Modifiers)
        ensures
            final(self)@ == old(self)@.with_modifiers(modifiers),
            old(self)@.wf() ==> final(self)@.wf(),
    {
        self.modifiers = modifiers;
    }

    /// Starts a draw: clears the frame request, empties the pending input
    /// into the frame, and describes what the frame is drawn from.
    pub fn draw(&mut self) -> (frame: Frame)
        ensures
            frame@ == old(self)@.snapshot(),
            final(self)@ == old(self)@.drained(),
            old(self)@.wf() ==> final(self)@.wf(),
    {
        self.scheduler.clear();
        let mut events: Vec<InputEvent> = Vec::new();
        std::mem::swap(&mut self.events, &mut events);
        Frame {
            size: self.size,
            scale: self.scale,
            physical: self.scale.physical_size(self.size),
            events,
            modifiers: self.modifiers,
            input_regions: self.input_regions,
        }
    }

    /// Takes a configure event that reports the logical size `reported`.
    ///
    /// A size without extent is replaced by the fallback size; any other is
    /// adopted as it is. The first configure also draws the surface, which
    /// cannot be presented before.
    pub fn configure(&mut self, reported: Size) -> (frame: Option<Frame>)
        ensures
            final(self)@ == old(self)@.configured(reported),
            frame_view(frame) == old(self)@.configure_frame(reported),
            final(self)@.wf(),
    {
        if reported.width == 0 || reported.height == 0 {
            self.size = Size { width: DEFAULT_WIDTH, height: DEFAULT_HEIGHT };
        } else {
            self.size = reported;
        }
        if self.first_configure {
            self.first_configure = false;
            Some(self.draw())
        } else {
            None
        }
    }

    /// Sets the scale. Where that changes it, the surface is redrawn at
    /// once, since what it shows is stale; the frame's logical size is also
    /// the viewport's new destination size.
    pub fn set_scale(&mut self, scale: Scale) -> (frame: Option<Frame>)
        ensures
            final(self)@ == old(self)@.rescaled(scale),
            frame_view(frame) == old(self)@.rescale_frame(scale),
            old(self)@.wf() ==> final(self)@.wf(),
    {
        if self.scale.numerator == scale.numerator {
            None
        } else {
            self.scale = scale;
            Some(self.draw())
        }
    }

    /// Takes an integer scale from the compositor. It is ignored while the
    /// surface is under fractional scaling, that is while its scale is not a
    /// whole number.
    pub fn scale_factor_changed(&mut self, factor: i32) -> (frame: Option<Frame>)
        ensures
            final(self)@ == old(self)@.integer_rescaled(factor),
            frame_view(frame) == old(self)@.integer_rescale_frame(factor),
            old(self)@.wf() ==> final(self)@.wf(),
    {
        if self.scale.is_integral() {
            self.set_scale(Scale::from_factor(factor))
        } else {
            None
        }
    }

    /// Takes a fractional scale from the compositor, in 120ths. It always
    /// applies.
    pub fn preferred_scale(&mut self, numerator: u32) -> (frame: Option<Frame>)
        ensures
            final(self)@ == old(self)@.rescaled(Scale::of_fraction(numerator)),
            frame_view(frame) == old(self)@.rescale_frame(Scale::of_fraction(numerator)),
            old(self)@.wf() ==> final(self)@.wf(),
    {
        self.set_scale(Scale::from_fraction(numerator))
    }
}

} // verus!
