//! The element rendering protocol of a retained, declarative UI toolkit.
//!
//! Every visual node takes part in three steps per frame: it requests layout, it
//! prepaints once its bounds are known, and it paints. An element context is
//! threaded through all three; it records draw commands, keeps the stack of scoped
//! regions, and gives access to application and window state.
//!
//! - [`style`] holds styles and the cascade that lays a node's overrides over the
//!   default style.
//! - [`scene`] holds the draw commands and the notion of a balanced sequence of
//!   them.
//! - [`app`] and [`window`] hold the state that outlives a frame.
//! - [`window::element_cx`] holds the context of a pass over the element tree.
//! - [`element`] holds the protocol itself and the slot that takes a node through
//!   it in order.
//! - [`elements`] holds the nodes that come with the library: the canvas, which
//!   draws with two callbacks, and the group, which holds children.
//! - [`frame`] holds the two walks that make a frame.

pub mod app;
pub mod element;
pub mod elements;
pub mod frame;
pub mod geometry;
pub mod scene;
pub mod style;
pub mod window;

pub use app::{AppContext, EntityId, Model, Reservation, StateError};
pub use element::{
    Drawable, Element, ElementId, IntoElement, NodeStage, ProtocolError, Step,
};
pub use elements::canvas::{canvas, Canvas};
pub use elements::group::{group, Group};
pub use frame::FrameError;
pub use geometry::{bounds, point, px, size, Bounds, Pixels, Point, Size};
pub use scene::{Image, Path, Primitive, Quad, Scene, ScopedRegion, Shadow, TextRun};
pub use style::{BoxShadow, Rgba, Style, StyleRefinement, Styled};
pub use window::element_cx::{
    DrawPhase, ElementContext, PaintContext, PrepaintContext, RequestLayoutContext,
};
pub use window::{
    LayoutEngine, LayoutError, LayoutId, LayoutNode, ViewHandle, Window, WindowContext, WindowId,
};
