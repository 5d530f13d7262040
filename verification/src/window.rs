//! Window state: the layout requests of the frame under way, the bounds that the
//! layout solver gave them, and the draw commands recorded so far.
//!
//! The layout solver itself is not part of this library. Nodes register layout
//! requests here; whoever drives the frame reads them, has the solver place every
//! one, and hands the bounds back with [`LayoutEngine::resolve`].

pub mod element_cx;

use vstd::prelude::*;
use crate::app::{AppContext, EntityId, Model, Reservation, StateError};
use crate::geometry::Bounds;
use crate::scene::{balanced, Primitive, Scene};
use crate::style::Style;

verus! {

/// The handle that the layout engine gives to a registered node: the request's
/// position among the requests of the frame.
#[derive(Clone, Copy, Debug, PartialEq, Eq, Structural)]
pub struct LayoutId(pub usize);

/// The identity of a window.
#[derive(Clone, Copy, Debug, PartialEq, Eq, Structural)]
pub struct WindowId(pub u64);

/// One layout request: the style of a node, as a hint for its size, and the
/// handles of its children.
#[derive(Debug, PartialEq, Eq)]
pub struct LayoutNode {
    pub style: Style,
    pub children: Vec<LayoutId>,
}

/// A layout request as a mathematical value.
pub ghost struct LayoutRequest {
    pub style: Style,
    pub children: Seq<LayoutId>,
}

impl View for LayoutNode {
    type V = LayoutRequest;

    open spec fn view(&self) -> LayoutRequest {
        LayoutRequest { style: self.style, children: self.children@ }
    }
}

/// Why the layout engine refused the solver's result.
#[derive(Clone, Copy, Debug, PartialEq, Eq, Structural)]
pub enum LayoutError {
    /// The solver gave another number of bounds than there are requests.
    BoundsMismatch,
}

/// The layout requests of one frame and, once the solver has run, their bounds.
#[derive(Debug)]
pub struct LayoutEngine {
    nodes: Vec<LayoutNode>,
    resolved: Option<Vec<Bounds>>,
}

impl LayoutEngine {
    /// The requests registered in this frame, in the order of their handles.
    pub closed spec fn requests(&self) -> Seq<LayoutRequest> {
        Seq::new(self.nodes@.len(), |i: int| self.nodes@[i]@)
    }

    /// The bounds that the solver gave, one for each request, or `None` while
    /// the requests of the frame have not been resolved.
    pub closed spec fn bounds(&self) -> Option<Seq<Bounds>> {
        match self.resolved {
            Some(all) => Some(all@),
            None => None,
        }
    }

    /// The bounds of the node behind `id`: what the solver gave it, or the empty
    /// rectangle where the solver has given it nothing.
    pub open spec fn spec_layout_bounds(&self, id: LayoutId) -> Bounds {
        match self.bounds() {
            Some(all) => if id.0 < all.len() {
                all[id.0 as int]
            } else {
                Bounds::spec_empty()
            },
            None => Bounds::spec_empty(),
        }
    }

    /// An engine without requests.
    pub fn new() -> (engine: LayoutEngine)
        ensures
            engine.requests() == Seq::<LayoutRequest>::empty(),
            engine.bounds() is None,
    {
        let engine = LayoutEngine { nodes: Vec::new(), resolved: None };
        assert(engine.requests() =~= Seq::<LayoutRequest>::empty());
        engine
    }

    /// Forgets the requests and bounds of the last frame.
    pub fn clear(&mut self)
        ensures
            final(self).requests() == Seq::<LayoutRequest>::empty(),
            final(self).bounds() is None,
    {
        self.nodes.clear();
        self.resolved = None;
        assert(self.requests() =~= Seq::<LayoutRequest>::empty());
    }

    /// Registers a node with its style and the handles of its children, and
    /// returns the node's handle.
    ///
    /// Registration never fails. Bounds that were resolved before are dropped:
    /// they did not account for the new request.
    pub fn request_layout(&mut self, style: &Style, children: Vec<LayoutId>) -> (id: LayoutId)
        ensures
            id.0 == old(self).requests().len(),
            final(self).requests() == old(self).requests().push(
                LayoutRequest { style: *style, children: children@ },
            ),
            final(self).bounds() is None,
    {
        let id: usize = self.nodes.len();
        self.nodes.push(LayoutNode { style: *style, children });
        self.resolved = None;
        assert(self.requests() =~= old(self).requests().push(
            LayoutRequest { style: *style, children: children@ },
        ));
        LayoutId(id)
    }

    /// The number of requests registered in this frame.
    pub fn request_count(&self) -> (n: usize)
        ensures
            n == self.requests().len(),
    {
        self.nodes.len()
    }

    /// The request behind `id`, for the solver to read.
    pub fn request(&self, id: LayoutId) -> (node: Option<&LayoutNode>)
        ensures
            id.0 < self.requests().len() ==> node is Some
                && node->0@ == self.requests()[id.0 as int],
            id.0 >= self.requests().len() ==> node is None,
    {
        if id.0 < self.nodes.len() {
            Some(&self.nodes[id.0])
        } else {
            None
        }
    }

    /// Whether the solver's bounds for the requests of this frame are in.
    pub fn is_resolved(&self) -> (r: bool)
        ensures
            r == self.bounds() is Some,
    {
        self.resolved.is_some()
    }

    /// Takes the solver's result: the bounds of every request, in the order of
    /// the handles.
    ///
    /// Refused, with the engine unchanged, where there are more or fewer bounds
    /// than requests.
    pub fn resolve(&mut self, bounds: Vec<Bounds>) -> (r: Result<(), LayoutError>)
        ensures
            final(self).requests() == old(self).requests(),
            bounds@.len() == old(self).requests().len() ==> r is Ok && final(self).bounds()
                == Some(bounds@),
            bounds@.len() != old(self).requests().len() ==> r == Err::<(), LayoutError>(
                LayoutError::BoundsMismatch,
            ) && *final(self) == *old(self),
    {
        if bounds.len() == self.nodes.len() {
            self.resolved = Some(bounds);
            Ok(())
        } else {
            Err(LayoutError::BoundsMismatch)
        }
    }

    /// The bounds of the node behind `id`: what the solver gave it, or the empty
    /// rectangle where the solver has given it nothing.
    pub fn layout_bounds(&self, id: LayoutId) -> (b: Bounds)
        ensures
            b == self.spec_layout_bounds(id),
    {
        match &self.resolved {
            Some(all) => {
                if id.0 < all.len() {
                    all[id.0]
                } else {
                    Bounds::empty()
                }
            },
            None => Bounds::empty(),
        }
    }
}

/// A handle to a view: a state cell that a window can show.
#[derive(Clone, Copy, Debug, PartialEq, Eq, Structural)]
pub struct ViewHandle {
    pub model: Model,
}

/// The state of one window that outlives a pass over the element tree.
#[derive(Debug)]
pub struct Window {
    pub id: WindowId,
    /// The layout requests and bounds of the frame under way.
    pub layout: LayoutEngine,
    /// The draw commands of the frame under way.
    pub next_frame: Scene,
    /// The view that the window shows as its root, if any.
    pub root_view: Option<EntityId>,
    /// The view that has the focus, if any.
    pub focused_view: Option<EntityId>,
}

/// A slot of the window without the view `id`: empty where it held that view,
/// else as it was.
pub open spec fn without(slot: Option<EntityId>, id: EntityId) -> Option<EntityId> {
    if slot == Some(id) {
        None
    } else {
        slot
    }
}

/// `without` on concrete values.
fn slot_without(slot: Option<EntityId>, id: EntityId) -> (r: Option<EntityId>)
    ensures
        r == without(slot, id),
{
    match slot {
        Some(held) => if held == id {
            None
        } else {
            slot
        },
        None => None,
    }
}

impl Window {
    /// Whether the window shows the view `id`, as its root or as the view with
    /// the focus.
    pub open spec fn shows(&self, id: EntityId) -> bool {
        self.root_view == Some(id) || self.focused_view == Some(id)
    }

    /// Whether the window is as `other` is in all but the draw commands of the
    /// frame under way.
    pub open spec fn same_but_frame(&self, other: &Window) -> bool {
        &&& self.id == other.id
        &&& self.layout == other.layout
        &&& self.root_view == other.root_view
        &&& self.focused_view == other.focused_view
    }

    /// Whether the window is as `other` is in all but the layout requests and
    /// their bounds.
    pub open spec fn same_but_layout(&self, other: &Window) -> bool {
        &&& self.id == other.id
        &&& self.next_frame == other.next_frame
        &&& self.root_view == other.root_view
        &&& self.focused_view == other.focused_view
    }

    /// A window without layout requests, with an empty frame, and without views.
    pub fn new(id: WindowId) -> (window: Window)
        ensures
            window.id == id,
            window.layout.requests() == Seq::<LayoutRequest>::empty(),
            window.layout.bounds() is None,
            window.next_frame@ == Seq::<Primitive>::empty(),
            window.root_view is None,
            window.focused_view is None,
    {
        Window {
            id,
            layout: LayoutEngine::new(),
            next_frame: Scene::new(),
            root_view: None,
            focused_view: None,
        }
    }

    /// Starts a new frame: the requests, the bounds and the draw commands of
    /// the last one are dropped.
    pub fn begin_frame(&mut self)
        ensures
            final(self).id == old(self).id,
            final(self).root_view == old(self).root_view,
            final(self).focused_view == old(self).focused_view,
            final(self).layout.requests() == Seq::<LayoutRequest>::empty(),
            final(self).layout.bounds() is None,
            final(self).next_frame@ == Seq::<Primitive>::empty(),
    {
        self.layout.clear();
        self.next_frame = Scene::new();
    }

    /// Hands out the draw commands of the frame under way, for the backend to
    /// present, and leaves the frame empty.
    ///
    /// What is handed out is balanced: every scoped region that was opened in
    /// the frame was closed in it.
    pub fn take_frame(&mut self) -> (frame: Vec<Primitive>)
        ensures
            frame@ == old(self).next_frame@,
            balanced(frame@),
            final(self).next_frame@ == Seq::<Primitive>::empty(),
            final(self).id == old(self).id,
            final(self).layout == old(self).layout,
            final(self).root_view == old(self).root_view,
            final(self).focused_view == old(self).focused_view,
    {
        self.next_frame.take().into_primitives()
    }
}

/// A window together with the application that it belongs to: the handle
/// through which window-scoped code reaches both.
#[derive(Debug)]
pub struct WindowContext {
    pub app: AppContext,
    pub window: Window,
}

impl WindowContext {
    /// Puts an application and one of its windows under one handle.
    pub fn new(app: AppContext, window: Window) -> (cx: WindowContext)
        ensures
            cx.app == app,
            cx.window == window,
    {
        WindowContext { app, window }
    }

    /// Makes a new state cell; see [`AppContext::new_model`].
    pub fn new_model(&mut self, value: i64) -> (handle: Model)
        ensures
            final(self).app@ == old(self).app@.push(Some(value)),
            handle.id.0 == old(self).app@.len(),
            final(self).window == old(self).window,
    {
        self.app.new_model(value)
    }

    /// Claims the identity of a new state cell; see
    /// [`AppContext::reserve_model`].
    pub fn reserve_model(&mut self) -> (reservation: Reservation)
        ensures
            final(self).app@ == old(self).app@.push(None),
            reservation.spec_id().0 == old(self).app@.len(),
            final(self).window == old(self).window,
    {
        self.app.reserve_model()
    }

    /// Gives a reserved state cell its value; see [`AppContext::insert_model`].
    pub fn insert_model(&mut self, reservation: Reservation, value: i64) -> (r: Result<
        Model,
        StateError,
    >)
        ensures
            final(self).window == old(self).window,
            old(self).app.awaits(reservation.spec_id()) ==> r == Ok::<Model, StateError>(
                Model { id: reservation.spec_id() },
            ) && final(self).app@ == old(self).app@.update(
                reservation.spec_id().0 as int,
                Some(value),
            ),
            !old(self).app.awaits(reservation.spec_id()) ==> r == Err::<Model, StateError>(
                StateError::NotReserved,
            ) && final(self).app@ == old(self).app@,
    {
        self.app.insert_model(reservation, value)
    }

    /// Updates a state cell; see [`AppContext::update_model`].
    pub fn update_model<F: FnOnce(i64) -> i64>(&mut self, handle: &Model, update: F) -> (r: Result<
        i64,
        StateError,
    >)
        requires
            old(self).app.holds(handle.id) ==> update.requires(
                (old(self).app@[handle.id.0 as int]->0,),
            ),
        ensures
            final(self).window == old(self).window,
            old(self).app.holds(handle.id) ==> r is Ok && update.ensures(
                (old(self).app@[handle.id.0 as int]->0,),
                r->Ok_0,
            ) && final(self).app@ == old(self).app@.update(handle.id.0 as int, Some(r->Ok_0)),
            !old(self).app.holds(handle.id) ==> r == Err::<i64, StateError>(
                StateError::UnknownEntity,
            ) && final(self).app@ == old(self).app@,
    {
        self.app.update_model(handle, update)
    }

    /// Reads a state cell; see [`AppContext::read_model`].
    pub fn read_model(&self, handle: &Model) -> (r: Result<i64, StateError>)
        ensures
            self.app.holds(handle.id) ==> r == Ok::<i64, StateError>(
                self.app@[handle.id.0 as int]->0,
            ),
            !self.app.holds(handle.id) ==> r == Err::<i64, StateError>(StateError::UnknownEntity),
    {
        self.app.read_model(handle)
    }
}

impl WindowContext {
    /// Makes a new view whose state cell holds `value`, and returns the handle
    /// to it. The window does not show the view yet.
    pub fn new_view(&mut self, value: i64) -> (view: ViewHandle)
        ensures
            final(self).app@ == old(self).app@.push(Some(value)),
            view.model.id.0 == old(self).app@.len(),
            final(self).window == old(self).window,
    {
        ViewHandle { model: self.app.new_model(value) }
    }

    /// Replaces the value of the state cell of `view` by what `update` makes of
    /// it, and returns the new value; see [`AppContext::update_model`].
    pub fn update_view<F: FnOnce(i64) -> i64>(
        &mut self,
        view: &ViewHandle,
        update: F,
    ) -> (r: Result<i64, StateError>)
        requires
            old(self).app.holds(view.model.id) ==> update.requires(
                (old(self).app@[view.model.id.0 as int]->0,),
            ),
        ensures
            final(self).window == old(self).window,
            old(self).app.holds(view.model.id) ==> r is Ok && update.ensures(
                (old(self).app@[view.model.id.0 as int]->0,),
                r->Ok_0,
            ) && final(self).app@ == old(self).app@.update(
                view.model.id.0 as int,
                Some(r->Ok_0),
            ),
            !old(self).app.holds(view.model.id) ==> r == Err::<i64, StateError>(
                StateError::UnknownEntity,
            ) && final(self).app@ == old(self).app@,
    {
        self.app.update_model(&view.model, update)
    }

    /// Makes a new view whose state cell holds `value`, and has the window show
    /// it as its root in place of the root it had.
    pub fn replace_root_view(&mut self, value: i64) -> (view: ViewHandle)
        ensures
            final(self).app@ == old(self).app@.push(Some(value)),
            view.model.id.0 == old(self).app@.len(),
            final(self).window.root_view == Some(view.model.id),
            final(self).window.focused_view == old(self).window.focused_view,
            final(self).window.id == old(self).window.id,
            final(self).window.layout == old(self).window.layout,
            final(self).window.next_frame == old(self).window.next_frame,
    {
        let model = self.app.new_model(value);
        self.window.root_view = Some(model.id);
        ViewHandle { model }
    }

    /// Gives `view` the focus of the window.
    ///
    /// Refused, with the focus where it was, where the handle names no state
    /// cell that holds a value.
    pub fn focus_view(&mut self, view: &ViewHandle) -> (r: Result<(), StateError>)
        ensures
            final(self).app == old(self).app,
            final(self).window.id == old(self).window.id,
            final(self).window.layout == old(self).window.layout,
            final(self).window.next_frame == old(self).window.next_frame,
            final(self).window.root_view == old(self).window.root_view,
            old(self).app.holds(view.model.id) ==> r is Ok && final(self).window.focused_view
                == Some(view.model.id),
            !old(self).app.holds(view.model.id) ==> r == Err::<(), StateError>(
                StateError::UnknownEntity,
            ) && final(self).window.focused_view == old(self).window.focused_view,
    {
        match self.app.read_model(&view.model) {
            Ok(_) => {
                self.window.focused_view = Some(view.model.id);
                Ok(())
            },
            Err(e) => Err(e),
        }
    }

    /// Takes `view` off the window: where it was the root, the window has no
    /// root afterwards; where it had the focus, no view has it afterwards.
    ///
    /// Refused where the window did not show the view.
    pub fn dismiss_view(&mut self, view: &ViewHandle) -> (r: Result<(), StateError>)
        ensures
            final(self).app == old(self).app,
            final(self).window.id == old(self).window.id,
            final(self).window.layout == old(self).window.layout,
            final(self).window.next_frame == old(self).window.next_frame,
            final(self).window.root_view == without(old(self).window.root_view, view.model.id),
            final(self).window.focused_view == without(
                old(self).window.focused_view,
                view.model.id,
            ),
            old(self).window.shows(view.model.id) ==> r is Ok,
            !old(self).window.shows(view.model.id) ==> r == Err::<(), StateError>(
                StateError::UnknownEntity,
            ),
    {
        let root = slot_without(self.window.root_view, view.model.id);
        let focused = slot_without(self.window.focused_view, view.model.id);
        let shown = root.is_none() && self.window.root_view.is_some() || focused.is_none()
            && self.window.focused_view.is_some();
        self.window.root_view = root;
        self.window.focused_view = focused;
        if shown {
            Ok(())
        } else {
            Err(StateError::UnknownEntity)
        }
    }
}

} // verus!
