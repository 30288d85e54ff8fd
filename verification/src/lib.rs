//! Event dispatch and frame scheduling for immediate-mode user interfaces
//! that render into desktop-shell layer surfaces.
//!
//! The crate holds the decisions of such a host and none of its plumbing:
//! which surface an incoming protocol event belongs to, which interface
//! events it becomes, when a surface may ask the compositor for another
//! frame, what a frame is drawn from, and which part of a surface accepts
//! pointer and touch input. The display connection, the interface engine and
//! the graphics backend stay with the embedding program, which feeds events
//! in and carries out what the handlers return.
pub mod context;
pub mod geometry;
pub mod input;
pub mod keysyms;
pub mod model;
pub mod placement;
pub mod poll;
pub mod profiler;
pub mod region;
pub mod scale;
pub mod scheduler;
pub mod seat;
pub mod surface;

pub use context::{Context, FrameAction};
pub use geometry::{Pos, Rect, Size};
pub use input::{
    InputEvent, KeyEvent, KeyboardModifiers, Modifiers, PointerButton, PointerEvent,
    PointerEventKind, TouchPhase,
};
pub use keysyms::Key;
pub use model::TouchState;
pub use placement::{Layer, LayerAppOpts};
pub use profiler::Profiler;
pub use region::{AreaInfo, InputRegion, InputRegions, Order};
pub use scale::Scale;
pub use scheduler::{FrameScheduler, FrameState, LayerAppHandle};
pub use seat::{Capability, SeatDevices};
pub use surface::{Frame, LayerApp, SurfaceId};
