//! The element context: the handle through which a node's steps reach the frame.
//!
//! A context wraps a [`WindowContext`] for the length of a pass over the element
//! tree. To the application and window state behind it, it adds what a pass needs
//! and nothing else: the draw commands recorded so far, the stack of scoped
//! regions that are open, and the step under way.
//!
//! Draw commands are recorded in scopes. Whatever runs inside a scope (a node's
//! paint step, the content of a scoped region) sees a recording of its own, which
//! starts empty. When the scope closes, what was recorded in it is put after what
//! was recorded before it, between the push and the pop of the scope's region if
//! it has one. So nothing that runs inside a scope can disturb what was recorded
//! outside it, and a region is closed however the code inside it ends.

use vstd::prelude::*;
use crate::app::{AppContext, Model, Reservation, StateError};
use crate::geometry::Bounds;
use crate::scene::{
    balanced,
    scoped,
    Image,
    Path,
    Primitive,
    Quad,
    Scene,
    ScopedRegion,
    Shadow,
    TextRun,
};
use crate::style::Style;
use crate::window::{
    without,
    LayoutId,
    LayoutRequest,
    ViewHandle,
    Window,
    WindowContext,
    WindowId,
};

verus! {

/// The step of the protocol that a context is serving.
#[derive(Clone, Copy, Debug, PartialEq, Eq, Structural)]
pub enum DrawPhase {
    /// No step is under way.
    Idle,
    /// A node is requesting layout. Bounds are not known yet.
    Layout,
    /// A node is prepainting. Nothing is drawn yet.
    Prepaint,
    /// A node is painting.
    Paint,
}

/// Whether a clip is among the regions.
pub open spec fn clips_any(regions: Seq<ScopedRegion>) -> bool {
    exists|i: int| 0 <= i < regions.len() && #[trigger] regions[i] is Clip
}

/// Whether the region leaves the pixel at `(x, y)` visible: a clip does so for
/// the pixels that it covers, any other region for all.
pub open spec fn lets_through(region: ScopedRegion, x: int, y: int) -> bool {
    region matches ScopedRegion::Clip(b) ==> b.covers(x, y)
}

/// Whether the pixel at `(x, y)` lies inside every clip among the regions.
pub open spec fn within_clips(regions: Seq<ScopedRegion>, x: int, y: int) -> bool {
    forall|i: int| 0 <= i < regions.len() ==> lets_through(#[trigger] regions[i], x, y)
}

/// One more region on top clips a pixel away exactly where the regions below it
/// or the new region do.
proof fn lemma_within_clips_push(regions: Seq<ScopedRegion>, top: ScopedRegion, x: int, y: int)
    ensures
        within_clips(regions.push(top), x, y) <==> within_clips(regions, x, y) && lets_through(
            top,
            x,
            y,
        ),
{
    let more = regions.push(top);
    if within_clips(more, x, y) {
        assert forall|i: int| 0 <= i < regions.len() implies lets_through(
            #[trigger] regions[i],
            x,
            y,
        ) by {
            assert(more[i] == regions[i]);
        }
        assert(more[regions.len() as int] == top);
    }
    if within_clips(regions, x, y) && lets_through(top, x, y) {
        assert forall|i: int| 0 <= i < more.len() implies lets_through(#[trigger] more[i], x, y) by {
            if i < regions.len() {
                assert(more[i] == regions[i]);
            }
        }
    }
}

/// With one more region on top, a clip is among the regions exactly where one
/// was before or the new region is one.
proof fn lemma_clips_any_push(regions: Seq<ScopedRegion>, top: ScopedRegion)
    ensures
        clips_any(regions.push(top)) <==> clips_any(regions) || top is Clip,
{
    let more = regions.push(top);
    if clips_any(regions) {
        let i = choose|i: int| 0 <= i < regions.len() && #[trigger] regions[i] is Clip;
        assert(more[i] is Clip);
    }
    if top is Clip {
        assert(more[regions.len() as int] is Clip);
    }
    if clips_any(more) {
        let i = choose|i: int| 0 <= i < more.len() && #[trigger] more[i] is Clip;
        if i < regions.len() {
            assert(regions[i] is Clip);
        }
    }
}

impl DrawPhase {
    /// Whether draw commands may be recorded: while a node paints, and while no
    /// step is under way.
    pub open spec fn permits_drawing(self) -> bool {
        self == DrawPhase::Paint || self == DrawPhase::Idle
    }

    /// Whether layout may be requested: while a node requests layout, and while
    /// no step is under way.
    pub open spec fn permits_layout(self) -> bool {
        self == DrawPhase::Layout || self == DrawPhase::Idle
    }
}

/// The context of a pass over the element tree.
#[derive(Debug)]
pub struct ElementContext {
    cx: WindowContext,
    phase: DrawPhase,
    scene: Scene,
    regions: Vec<ScopedRegion>,
}

/// The context as a node sees it while it requests layout.
pub type RequestLayoutContext = ElementContext;

/// The context as a node sees it while it prepaints.
pub type PrepaintContext = ElementContext;

/// The context as a node sees it while it paints.
pub type PaintContext = ElementContext;

/// What a context sets aside when a scope opens, to be put back when the scope
/// closes.
pub(crate) struct Scope {
    pub(crate) scene: Scene,
    pub(crate) regions: Vec<ScopedRegion>,
    pub(crate) phase: DrawPhase,
}

/// The stack of open regions inside a scope with the region `region`: the stack
/// outside the scope, with the region on top where there is one.
pub open spec fn regions_inside(outer: Seq<ScopedRegion>, region: Option<ScopedRegion>) -> Seq<
    ScopedRegion,
> {
    match region {
        Some(r) => outer.push(r),
        None => outer,
    }
}

impl ElementContext {
    /// The application and window state behind the context.
    pub closed spec fn state(&self) -> WindowContext {
        self.cx
    }

    /// The step that the context is serving.
    pub closed spec fn draw_phase(&self) -> DrawPhase {
        self.phase
    }

    /// The draw commands recorded so far in the scope that is open.
    pub closed spec fn recorded(&self) -> Seq<Primitive> {
        self.scene@
    }

    /// The scoped regions that are open, outermost first.
    pub closed spec fn active_regions(&self) -> Seq<ScopedRegion> {
        self.regions@
    }

    /// Whether the context is as `outer` is, but inside a fresh scope with the
    /// region `region`, serving the step `phase`.
    pub open spec fn is_inside(
        &self,
        outer: &ElementContext,
        phase: DrawPhase,
        region: Option<ScopedRegion>,
    ) -> bool {
        &&& self.state() == outer.state()
        &&& self.draw_phase() == phase
        &&& self.recorded() == Seq::<Primitive>::empty()
        &&& self.active_regions() == regions_inside(outer.active_regions(), region)
    }

    /// Wraps `cx` for a pass: no step under way, nothing recorded, no region
    /// open.
    pub(crate) fn new(cx: WindowContext) -> (ecx: ElementContext)
        ensures
            ecx.state() == cx,
            ecx.draw_phase() == DrawPhase::Idle,
            ecx.recorded() == Seq::<Primitive>::empty(),
            ecx.active_regions() == Seq::<ScopedRegion>::empty(),
    {
        ElementContext { cx, phase: DrawPhase::Idle, scene: Scene::new(), regions: Vec::new() }
    }

    /// Ends the pass: hands back the state behind the context and what the pass
    /// recorded.
    pub(crate) fn into_parts(self) -> (parts: (WindowContext, Scene))
        ensures
            parts.0 == self.state(),
            parts.1@ == self.recorded(),
    {
        (self.cx, self.scene)
    }

    /// Opens a scope with the region `region`, to serve the step `phase`: what
    /// was recorded, the open regions and the step are set aside, and the
    /// recording starts anew.
    pub(crate) fn open_scope(&mut self, phase: DrawPhase, region: Option<ScopedRegion>) -> (saved:
        Scope)
        ensures
            saved.scene@ == old(self).recorded(),
            saved.regions@ == old(self).active_regions(),
            saved.phase == old(self).draw_phase(),
            final(self).is_inside(old(self), phase, region),
    {
        let scene = self.scene.take();
        let mut regions: Vec<ScopedRegion> = Vec::new();
        core::mem::swap(&mut regions, &mut self.regions);
        let saved_phase = self.phase;
        // Inside the scope the stack holds what it held outside, and the
        // scope's own region on top.
        let mut inside: Vec<ScopedRegion> = Vec::new();
        let mut i: usize = 0;
        while i < regions.len()
            invariant
                i <= regions.len(),
                inside@ == regions@.take(i as int),
            decreases regions.len() - i,
        {
            inside.push(regions[i]);
            assert(regions@.take(i + 1) =~= regions@.take(i as int).push(regions@[i as int]));
            i = i + 1;
        }
        assert(regions@.take(regions@.len() as int) =~= regions@);
        match region {
            Some(r) => inside.push(r),
            None => {},
        }
        self.regions = inside;
        self.phase = phase;
        Scope { scene, regions, phase: saved_phase }
    }

    /// Closes a scope with the region `region`: what was recorded in it is put
    /// after what was set aside when it opened, inside the region where there is
    /// one; the open regions and the step are as they were set aside.
    pub(crate) fn close_scope(&mut self, saved: Scope, region: Option<ScopedRegion>)
        ensures
            balanced(old(self).recorded()),
            final(self).recorded() == saved.scene@ + scoped(region, old(self).recorded()),
            final(self).active_regions() == saved.regions@,
            final(self).draw_phase() == saved.phase,
            final(self).state() == old(self).state(),
    {
        let inner = self.scene.take();
        let mut scene = saved.scene;
        scene.push_scoped(region, inner);
        self.scene = scene;
        self.regions = saved.regions;
        self.phase = saved.phase;
    }

    /// Closes a scope in which nothing may be drawn: what was recorded in it is
    /// dropped; what was set aside when it opened is put back.
    pub(crate) fn abandon_scope(&mut self, saved: Scope)
        ensures
            final(self).recorded() == saved.scene@,
            final(self).active_regions() == saved.regions@,
            final(self).draw_phase() == saved.phase,
            final(self).state() == old(self).state(),
    {
        self.scene = saved.scene;
        self.regions = saved.regions;
        self.phase = saved.phase;
    }

    /// The step that the context is serving.
    pub fn phase(&self) -> (phase: DrawPhase)
        ensures
            phase == self.draw_phase(),
    {
        self.phase
    }

    /// The draw commands recorded so far in the scope that is open.
    pub fn scene(&self) -> (scene: &Scene)
        ensures
            scene@ == self.recorded(),
    {
        &self.scene
    }

    /// The number of scoped regions that are open.
    pub fn region_depth(&self) -> (n: usize)
        ensures
            n == self.active_regions().len(),
    {
        self.regions.len()
    }

    /// The scoped region that was opened last and is still open.
    pub fn innermost_region(&self) -> (r: Option<ScopedRegion>)
        ensures
            self.active_regions().len() == 0 ==> r is None,
            self.active_regions().len() > 0 ==> r == Some(self.active_regions().last()),
    {
        let n: usize = self.regions.len();
        if n == 0 {
            None
        } else {
            Some(self.regions[n - 1])
        }
    }

    /// The part of pixel space in which draw commands leave a mark: what all
    /// the clips among the open regions share, or `None` where no clip is open.
    pub fn content_mask(&self) -> (mask: Option<Bounds>)
        ensures
            mask is None <==> !clips_any(self.active_regions()),
            mask matches Some(m) ==> forall|x: int, y: int|
                m.covers(x, y) <==> within_clips(self.active_regions(), x, y),
    {
        let mut mask: Option<Bounds> = None;
        let mut i: usize = 0;
        while i < self.regions.len()
            invariant
                i <= self.regions.len(),
                mask is None <==> !clips_any(self.regions@.take(i as int)),
                mask matches Some(m) ==> forall|x: int, y: int|
                    m.covers(x, y) <==> within_clips(self.regions@.take(i as int), x, y),
            decreases self.regions.len() - i,
        {
            let region = self.regions[i];
            let ghost seen = self.regions@.take(i as int);
            let ghost before = mask;
            match region {
                ScopedRegion::Clip(clip) => {
                    let joined = match mask {
                        Some(m) => m.intersect(&clip),
                        None => clip,
                    };
                    mask = Some(joined);
                },
                _ => {},
            }
            proof {
                assert(self.regions@.take(i + 1) =~= seen.push(region));
                lemma_clips_any_push(seen, region);
                assert forall|x: int, y: int|
                    mask is Some implies (mask->0.covers(x, y) <==> within_clips(
                        seen.push(region),
                        x,
                        y,
                    )) by {
                    lemma_within_clips_push(seen, region, x, y);
                    if before is None {
                        // No clip so far: every pixel is still visible.
                        assert forall|j: int| 0 <= j < seen.len() implies lets_through(
                            #[trigger] seen[j],
                            x,
                            y,
                        ) by {
                            assert(!(seen[j] is Clip));
                        }
                    }
                }
            }
            i = i + 1;
        }
        assert(self.regions@.take(self.regions@.len() as int) =~= self.regions@);
        mask
    }

    /// The context seen as the window-scoped state that it wraps.
    pub fn window_context(&self) -> (cx: &WindowContext)
        ensures
            *cx == self.state(),
    {
        &self.cx
    }

    /// The context seen as application state.
    pub fn app(&self) -> (app: &AppContext)
        ensures
            *app == self.state().app,
    {
        &self.cx.app
    }

    /// The context seen as window state.
    pub fn window(&self) -> (window: &Window)
        ensures
            *window == self.state().window,
    {
        &self.cx.window
    }

    /// Makes a new state cell that holds `value`.
    pub fn new_model(&mut self, value: i64) -> (handle: Model)
        ensures
            final(self).state().app@ == old(self).state().app@.push(Some(value)),
            handle.id.0 == old(self).state().app@.len(),
            final(self).state().window == old(self).state().window,
            final(self).same_frame_state(old(self)),
    {
        self.cx.new_model(value)
    }

    /// Claims the identity of a new state cell, to be given its value later.
    pub fn reserve_model(&mut self) -> (reservation: Reservation)
        ensures
            final(self).state().app@ == old(self).state().app@.push(None),
            reservation.spec_id().0 == old(self).state().app@.len(),
            final(self).state().window == old(self).state().window,
            final(self).same_frame_state(old(self)),
    {
        self.cx.reserve_model()
    }

    /// Gives the reserved state cell its value.
    ///
    /// Refused, with the state unchanged, where the reservation names no cell
    /// that still waits for its value.
    pub fn insert_model(&mut self, reservation: Reservation, value: i64) -> (r: Result<
        Model,
        StateError,
    >)
        ensures
            final(self).state().window == old(self).state().window,
            final(self).same_frame_state(old(self)),
            old(self).state().app.awaits(reservation.spec_id()) ==> r == Ok::<Model, StateError>(
                Model { id: reservation.spec_id() },
            ) && final(self).state().app@ == old(self).state().app@.update(
                reservation.spec_id().0 as int,
                Some(value),
            ),
            !old(self).state().app.awaits(reservation.spec_id()) ==> r == Err::<
                Model,
                StateError,
            >(StateError::NotReserved) && final(self).state().app@ == old(self).state().app@,
    {
        self.cx.insert_model(reservation, value)
    }

    /// Replaces the value of the state cell behind `handle` by what `update`
    /// makes of it, and returns the new value.
    ///
    /// Refused, with the state unchanged and `update` not called, where the
    /// handle names no cell that holds a value.
    pub fn update_model<F: FnOnce(i64) -> i64>(&mut self, handle: &Model, update: F) -> (r: Result<
        i64,
        StateError,
    >)
        requires
            old(self).state().app.holds(handle.id) ==> update.requires(
                (old(self).state().app@[handle.id.0 as int]->0,),
            ),
        ensures
            final(self).state().window == old(self).state().window,
            final(self).same_frame_state(old(self)),
            old(self).state().app.holds(handle.id) ==> r is Ok && update.ensures(
                (old(self).state().app@[handle.id.0 as int]->0,),
                r->Ok_0,
            ) && final(self).state().app@ == old(self).state().app@.update(
                handle.id.0 as int,
                Some(r->Ok_0),
            ),
            !old(self).state().app.holds(handle.id) ==> r == Err::<i64, StateError>(
                StateError::UnknownEntity,
            ) && final(self).state().app@ == old(self).state().app@,
    {
        self.cx.update_model(handle, update)
    }

    /// Reads the value of the state cell behind `handle`.
    pub fn read_model(&self, handle: &Model) -> (r: Result<i64, StateError>)
        ensures
            self.state().app.holds(handle.id) ==> r == Ok::<i64, StateError>(
                self.state().app@[handle.id.0 as int]->0,
            ),
            !self.state().app.holds(handle.id) ==> r == Err::<i64, StateError>(
                StateError::UnknownEntity,
            ),
    {
        self.cx.read_model(handle)
    }

    /// Whether the context records, scopes and serves as `other` does: the two
    /// differ at most in the application and window state behind them.
    pub open spec fn same_frame_state(&self, other: &ElementContext) -> bool {
        &&& self.draw_phase() == other.draw_phase()
        &&& self.recorded() == other.recorded()
        &&& self.active_regions() == other.active_regions()
    }

    /// Registers the node with the layout engine, with its style as a hint for
    /// its size and the handles of its children, and returns the node's handle.
    ///
    /// Not while a node prepaints or paints. Registration never fails.
    pub fn request_layout(&mut self, style: &Style, children: Vec<LayoutId>) -> (id: LayoutId)
        requires
            old(self).draw_phase().permits_layout(),
        ensures
            id.0 == old(self).state().window.layout.requests().len(),
            final(self).state().window.layout.requests()
                == old(self).state().window.layout.requests().push(
                LayoutRequest { style: *style, children: children@ },
            ),
            final(self).state().window.layout.bounds() is None,
            final(self).state().window.same_but_layout(&old(self).state().window),
            final(self).state().app == old(self).state().app,
            final(self).same_frame_state(old(self)),
    {
        self.cx.window.layout.request_layout(style, children)
    }

    /// The bounds that the layout solver gave to the node behind `id`, or the
    /// empty rectangle where it has given the node nothing.
    pub fn layout_bounds(&self, id: LayoutId) -> (b: Bounds)
        ensures
            b == self.state().window.layout.spec_layout_bounds(id),
    {
        self.cx.window.layout.layout_bounds(id)
    }

    /// Records a box. Not while a node requests layout or prepaints.
    pub fn paint_quad(&mut self, quad: Quad)
        requires
            old(self).draw_phase().permits_drawing(),
        ensures
            final(self).recorded() == old(self).recorded().push(Primitive::Quad(quad)),
            final(self).active_regions() == old(self).active_regions(),
            final(self).draw_phase() == old(self).draw_phase(),
            final(self).state() == old(self).state(),
    {
        self.scene.push_quad(quad);
    }

    /// Records a shadow. Not while a node requests layout or prepaints.
    pub fn paint_shadow(&mut self, shadow: Shadow)
        requires
            old(self).draw_phase().permits_drawing(),
        ensures
            final(self).recorded() == old(self).recorded().push(Primitive::Shadow(shadow)),
            final(self).active_regions() == old(self).active_regions(),
            final(self).draw_phase() == old(self).draw_phase(),
            final(self).state() == old(self).state(),
    {
        self.scene.push_shadow(shadow);
    }

    /// Records a run of text. Not while a node requests layout or prepaints.
    pub fn paint_text_run(&mut self, run: TextRun)
        requires
            old(self).draw_phase().permits_drawing(),
        ensures
            final(self).recorded() == old(self).recorded().push(Primitive::TextRun(run)),
            final(self).active_regions() == old(self).active_regions(),
            final(self).draw_phase() == old(self).draw_phase(),
            final(self).state() == old(self).state(),
    {
        self.scene.push_text_run(run);
    }

    /// Records an image. Not while a node requests layout or prepaints.
    pub fn paint_image(&mut self, image: Image)
        requires
            old(self).draw_phase().permits_drawing(),
        ensures
            final(self).recorded() == old(self).recorded().push(Primitive::Image(image)),
            final(self).active_regions() == old(self).active_regions(),
            final(self).draw_phase() == old(self).draw_phase(),
            final(self).state() == old(self).state(),
    {
        self.scene.push_image(image);
    }

    /// Records a path. Not while a node requests layout or prepaints.
    pub fn paint_path(&mut self, path: Path)
        requires
            old(self).draw_phase().permits_drawing(),
        ensures
            final(self).recorded() == old(self).recorded().push(Primitive::Path(path)),
            final(self).active_regions() == old(self).active_regions(),
            final(self).draw_phase() == old(self).draw_phase(),
            final(self).state() == old(self).state(),
    {
        self.scene.push_path(path);
    }

    /// Runs `f` inside a scope of its own, with the scoped region `region`
    /// around it where there is one.
    ///
    /// `f` is called once, on this context inside a fresh scope. What it records
    /// is put after what was recorded before, between the push and the pop of
    /// the region. The region is closed however `f` ends, and the open regions
    /// and the step are afterwards what they were before, whatever `f` did to
    /// them. What `f` did to the application and window state stays.
    pub fn with_scope<R, F: FnOnce(&mut ElementContext) -> R>(
        &mut self,
        region: Option<ScopedRegion>,
        f: F,
    ) -> (r: R)
        requires
            forall|c: &mut ElementContext|
                c.is_inside(old(self), old(self).draw_phase(), region)
                    ==> #[trigger] f.requires((c,)),
        ensures
            exists|c: &mut ElementContext|
                {
                    &&& #[trigger] f.ensures((c,), r)
                    &&& c.is_inside(old(self), old(self).draw_phase(), region)
                    &&& final(self).recorded() == old(self).recorded() + scoped(
                        region,
                        final(c).recorded(),
                    )
                    &&& balanced(final(c).recorded())
                    &&& final(self).state() == final(c).state()
                },
            final(self).active_regions() == old(self).active_regions(),
            final(self).draw_phase() == old(self).draw_phase(),
    {
        let phase = self.phase;
        let saved = self.open_scope(phase, region);
        let r = f(self);
        self.close_scope(saved, region);
        r
    }

    /// Runs `f` inside the scoped region `region`; see
    /// [`ElementContext::with_scope`].
    pub fn with_region<R, F: FnOnce(&mut ElementContext) -> R>(
        &mut self,
        region: ScopedRegion,
        f: F,
    ) -> (r: R)
        requires
            forall|c: &mut ElementContext|
                c.is_inside(old(self), old(self).draw_phase(), Some(region))
                    ==> #[trigger] f.requires((c,)),
        ensures
            exists|c: &mut ElementContext|
                {
                    &&& #[trigger] f.ensures((c,), r)
                    &&& c.is_inside(old(self), old(self).draw_phase(), Some(region))
                    &&& final(self).recorded() == old(self).recorded() + scoped(
                        Some(region),
                        final(c).recorded(),
                    )
                    &&& balanced(final(c).recorded())
                    &&& final(self).state() == final(c).state()
                },
            final(self).active_regions() == old(self).active_regions(),
            final(self).draw_phase() == old(self).draw_phase(),
    {
        self.with_scope(Some(region), f)
    }
}

impl ElementContext {
    /// The context seen as the window-scoped state that it wraps, for changing
    /// in place. What the context records and which regions are open is out of
    /// reach of the change.
    pub fn window_context_mut(&mut self) -> (cx: &mut WindowContext)
        ensures
            *cx == old(self).state(),
            final(self).state() == *final(cx),
            final(self).same_frame_state(old(self)),
    {
        &mut self.cx
    }

    /// The context seen as application state, for changing in place.
    pub fn app_mut(&mut self) -> (app: &mut AppContext)
        ensures
            *app == old(self).state().app,
            final(self).state().app == *final(app),
            final(self).state().window == old(self).state().window,
            final(self).same_frame_state(old(self)),
    {
        &mut self.cx.app
    }

    /// The context seen as window state, for changing in place.
    pub fn window_mut(&mut self) -> (window: &mut Window)
        ensures
            *window == old(self).state().window,
            final(self).state().window == *final(window),
            final(self).state().app == old(self).state().app,
            final(self).same_frame_state(old(self)),
    {
        &mut self.cx.window
    }

    /// Runs `update` on the window behind `handle`, seen as window-scoped state.
    ///
    /// Refused, with `update` not called, where `handle` names another window
    /// than the one behind this context.
    pub fn update_window<R, F: FnOnce(&mut WindowContext) -> R>(
        &mut self,
        handle: WindowId,
        update: F,
    ) -> (r: Result<R, StateError>)
        requires
            handle == old(self).state().window.id ==> forall|w: &mut WindowContext|
                *w == old(self).state() ==> #[trigger] update.requires((w,)),
        ensures
            final(self).same_frame_state(old(self)),
            handle == old(self).state().window.id ==> r is Ok && exists|w: &mut WindowContext|
                {
                    &&& #[trigger] update.ensures((w,), r->Ok_0)
                    &&& *w == old(self).state()
                    &&& *final(w) == final(self).state()
                },
            handle != old(self).state().window.id ==> r is Err && r->Err_0
                == StateError::WindowNotFound && final(self).state() == old(self).state(),
    {
        if handle == self.cx.window.id {
            let ghost before = self.cx;
            let value = update(&mut self.cx);
            let r: Result<R, StateError> = Ok(value);
            proof {
                let w = choose|w: &mut WindowContext| #[trigger]
                    update.ensures((w,), value) && *w == before && *final(w) == self.cx;
                assert(update.ensures((w,), r->Ok_0));
                assert(*w == old(self).state());
                assert(*final(w) == self.state());
            }
            r
        } else {
            Err(StateError::WindowNotFound)
        }
    }

    /// Runs `read` on the window behind `handle`, seen as window state beside
    /// the application state.
    ///
    /// Refused, with `read` not called, where `handle` names another window than
    /// the one behind this context.
    pub fn read_window<R, F: FnOnce(&Window, &AppContext) -> R>(
        &self,
        handle: WindowId,
        read: F,
    ) -> (r: Result<R, StateError>)
        requires
            handle == self.state().window.id ==> read.requires(
                (&self.state().window, &self.state().app),
            ),
        ensures
            handle == self.state().window.id ==> r is Ok && read.ensures(
                (&self.state().window, &self.state().app),
                r->Ok_0,
            ),
            handle != self.state().window.id ==> r is Err && r->Err_0
                == StateError::WindowNotFound,
    {
        if handle == self.cx.window.id {
            Ok(read(&self.cx.window, &self.cx.app))
        } else {
            Err(StateError::WindowNotFound)
        }
    }
}

impl WindowContext {
    /// Moves the state of this window context into a fresh element context, to
    /// be handed back with [`WindowContext::leave`]. An empty stand-in keeps the
    /// state's place meanwhile.
    pub(crate) fn enter(&mut self) -> (ecx: ElementContext)
        ensures
            ecx.state() == *old(self),
            ecx.draw_phase() == DrawPhase::Idle,
            ecx.recorded() == Seq::<Primitive>::empty(),
            ecx.active_regions() == Seq::<ScopedRegion>::empty(),
    {
        let mut state = WindowContext::new(AppContext::new(), Window::new(WindowId(0)));
        core::mem::swap(self, &mut state);
        ElementContext::new(state)
    }

    /// Takes back the state behind `ecx`, and puts what `ecx` recorded after the
    /// draw commands of the window's frame under way.
    pub(crate) fn leave(&mut self, ecx: ElementContext)
        ensures
            final(self).app == ecx.state().app,
            final(self).window.same_but_frame(&ecx.state().window),
            final(self).window.next_frame@ == ecx.state().window.next_frame@ + ecx.recorded(),
            balanced(ecx.recorded()),
    {
        let (state, scene) = ecx.into_parts();
        *self = state;
        self.window.next_frame.push_scoped(None, scene);
    }

    /// Runs `f` on an element context that wraps this window context.
    ///
    /// The context that `f` gets has the state of this window context behind
    /// it, serves no step, has recorded nothing and has no region open. When `f`
    /// is done, the state behind the context is the state of this window
    /// context again, and what was recorded in the context is put after the
    /// draw commands of the window's frame under way.
    pub fn with_element_context<R, F: FnOnce(&mut ElementContext) -> R>(&mut self, f: F) -> (r: R)
        requires
            forall|c: &mut ElementContext|
                c.state() == *old(self) && c.draw_phase() == DrawPhase::Idle && c.recorded()
                    == Seq::<Primitive>::empty() && c.active_regions() == Seq::<
                    ScopedRegion,
                >::empty() ==> #[trigger] f.requires((c,)),
        ensures
            exists|c: &mut ElementContext|
                {
                    &&& #[trigger] f.ensures((c,), r)
                    &&& c.state() == *old(self)
                    &&& c.draw_phase() == DrawPhase::Idle
                    &&& c.recorded() == Seq::<Primitive>::empty()
                    &&& c.active_regions() == Seq::<ScopedRegion>::empty()
                    &&& final(self).app == final(c).state().app
                    &&& final(self).window.same_but_frame(&final(c).state().window)
                    &&& final(self).window.next_frame@ == final(c).state().window.next_frame@
                        + final(c).recorded()
                },
    {
        let mut ecx = self.enter();
        let r = f(&mut ecx);
        self.leave(ecx);
        r
    }
}

impl core::borrow::Borrow<AppContext> for ElementContext {
    /// The context seen as application state.
    fn borrow(&self) -> &AppContext
        returns
            &self.state().app,
    {
        &self.cx.app
    }
}

impl core::borrow::Borrow<WindowContext> for ElementContext {
    /// The context seen as the window-scoped state that it wraps.
    fn borrow(&self) -> &WindowContext
        returns
            &self.state(),
    {
        &self.cx
    }
}

impl core::borrow::Borrow<Window> for ElementContext {
    /// The context seen as window state.
    fn borrow(&self) -> &Window
        returns
            &self.state().window,
    {
        &self.cx.window
    }
}

impl ElementContext {
    /// Makes a new view whose state cell holds `value`; see
    /// [`WindowContext::new_view`].
    pub fn new_view(&mut self, value: i64) -> (view: ViewHandle)
        ensures
            final(self).state().app@ == old(self).state().app@.push(Some(value)),
            view.model.id.0 == old(self).state().app@.len(),
            final(self).state().window == old(self).state().window,
            final(self).same_frame_state(old(self)),
    {
        self.cx.new_view(value)
    }

    /// Updates the state cell of a view; see [`WindowContext::update_view`].
    pub fn update_view<F: FnOnce(i64) -> i64>(
        &mut self,
        view: &ViewHandle,
        update: F,
    ) -> (r: Result<i64, StateError>)
        requires
            old(self).state().app.holds(view.model.id) ==> update.requires(
                (old(self).state().app@[view.model.id.0 as int]->0,),
            ),
        ensures
            final(self).state().window == old(self).state().window,
            final(self).same_frame_state(old(self)),
            old(self).state().app.holds(view.model.id) ==> r is Ok && update.ensures(
                (old(self).state().app@[view.model.id.0 as int]->0,),
                r->Ok_0,
            ) && final(self).state().app@ == old(self).state().app@.update(
                view.model.id.0 as int,
                Some(r->Ok_0),
            ),
            !old(self).state().app.holds(view.model.id) ==> r == Err::<i64, StateError>(
                StateError::UnknownEntity,
            ) && final(self).state().app@ == old(self).state().app@,
    {
        self.cx.update_view(view, update)
    }

    /// Makes a new view and has the window show it as its root; see
    /// [`WindowContext::replace_root_view`].
    pub fn replace_root_view(&mut self, value: i64) -> (view: ViewHandle)
        ensures
            final(self).state().app@ == old(self).state().app@.push(Some(value)),
            view.model.id.0 == old(self).state().app@.len(),
            final(self).state().window.root_view == Some(view.model.id),
            final(self).state().window.focused_view == old(self).state().window.focused_view,
            final(self).state().window.id == old(self).state().window.id,
            final(self).state().window.layout == old(self).state().window.layout,
            final(self).state().window.next_frame == old(self).state().window.next_frame,
            final(self).same_frame_state(old(self)),
    {
        self.cx.replace_root_view(value)
    }

    /// Gives the view the focus of the window; see
    /// [`WindowContext::focus_view`].
    pub fn focus_view(&mut self, view: &ViewHandle) -> (r: Result<(), StateError>)
        ensures
            final(self).state().app == old(self).state().app,
            final(self).state().window.id == old(self).state().window.id,
            final(self).state().window.layout == old(self).state().window.layout,
            final(self).state().window.next_frame == old(self).state().window.next_frame,
            final(self).state().window.root_view == old(self).state().window.root_view,
            final(self).same_frame_state(old(self)),
            old(self).state().app.holds(view.model.id) ==> r is Ok
                && final(self).state().window.focused_view == Some(view.model.id),
            !old(self).state().app.holds(view.model.id) ==> r == Err::<(), StateError>(
                StateError::UnknownEntity,
            ) && final(self).state().window.focused_view == old(self).state().window.focused_view,
    {
        self.cx.focus_view(view)
    }

    /// Takes the view off the window; see [`WindowContext::dismiss_view`].
    pub fn dismiss_view(&mut self, view: &ViewHandle) -> (r: Result<(), StateError>)
        ensures
            final(self).state().app == old(self).state().app,
            final(self).state().window.id == old(self).state().window.id,
            final(self).state().window.layout == old(self).state().window.layout,
            final(self).state().window.next_frame == old(self).state().window.next_frame,
            final(self).same_frame_state(old(self)),
            final(self).state().window.root_view == without(
                old(self).state().window.root_view,
                view.model.id,
            ),
            final(self).state().window.focused_view == without(
                old(self).state().window.focused_view,
                view.model.id,
            ),
            old(self).state().window.shows(view.model.id) ==> r is Ok,
            !old(self).state().window.shows(view.model.id) ==> r == Err::<(), StateError>(
                StateError::UnknownEntity,
            ),
    {
        self.cx.dismiss_view(view)
    }
}

} // verus!
