//! A whole frame: both walks over the element tree, with the layout solver in
//! between.
//!
//! The first walk has the root request layout, which registers every node of the
//! tree. The solver then places all of them. The second walk has the root prepaint
//! and paint with the bounds it was given. The frame that comes out is handed to
//! whoever presents it; a frame that cannot be completed is not handed out.

use vstd::prelude::*;
use crate::element::{Drawable, Element, NodeStage, ProtocolError};
use crate::geometry::Bounds;
use crate::scene::{balanced, Primitive, ScopedRegion};
use crate::window::element_cx::{DrawPhase, ElementContext};
use crate::window::{LayoutEngine, LayoutError, LayoutId, LayoutRequest, WindowContext};

verus! {

/// Why a frame was not completed.
#[derive(Clone, Copy, Debug, PartialEq, Eq, Structural)]
pub enum FrameError {
    /// A step was asked of the root out of order.
    Protocol(ProtocolError),
    /// The layout engine refused the solver's result.
    Layout(LayoutError),
}

impl WindowContext {
    /// The first walk of a frame: drops what is left of the last frame and has
    /// the root request layout.
    ///
    /// Granted to a root that has not requested layout. Refused otherwise, with
    /// the root and the window as they are. Afterwards the layout requests of
    /// the tree wait for the solver: no bounds are known, and nothing is drawn.
    pub fn layout_pass<E: Element>(&mut self, root: &mut Drawable<E>) -> (r: Result<
        LayoutId,
        ProtocolError,
    >)
        requires
            old(root).wf(),
        ensures
            final(root).wf(),
            old(root).spec_stage() == NodeStage::Unregistered ==> {
                &&& r is Ok
                &&& final(root).spec_stage() == NodeStage::LayoutRequested
                &&& final(root).spec_layout_id() == Some(r->Ok_0)
                &&& exists|e: &mut Drawable<E>, c: &mut ElementContext|
                    {
                        &&& #[trigger] call_ensures(Drawable::<E>::request_layout, (e, c), r)
                        &&& *e == *old(root)
                        &&& c.state().app == old(self).app
                        &&& c.state().window.id == old(self).window.id
                        &&& c.state().window.root_view == old(self).window.root_view
                        &&& c.state().window.focused_view == old(self).window.focused_view
                        &&& c.state().window.layout.requests() == Seq::<LayoutRequest>::empty()
                        &&& c.state().window.layout.bounds() is None
                        &&& c.state().window.next_frame@ == Seq::<Primitive>::empty()
                        &&& c.draw_phase() == DrawPhase::Idle
                        &&& c.recorded() == Seq::<Primitive>::empty()
                        &&& c.active_regions() == Seq::<ScopedRegion>::empty()
                        &&& *final(root) == *final(e)
                        &&& final(self).app == final(c).state().app
                        &&& final(self).window.same_but_frame(&final(c).state().window)
                        &&& final(self).window.next_frame@ == final(c).state().window.next_frame@
                            + final(c).recorded()
                    }
            },
            old(root).spec_stage() != NodeStage::Unregistered ==> {
                &&& r == Err::<LayoutId, ProtocolError>(ProtocolError::LayoutAlreadyRequested)
                &&& *final(root) == *old(root)
                &&& *final(self) == *old(self)
            },
    {
        if root.stage() != NodeStage::Unregistered {
            return Err(ProtocolError::LayoutAlreadyRequested);
        }
        self.window.begin_frame();
        let mut ecx = self.enter();
        let ghost cx1 = ecx;
        let requested = root.request_layout(&mut ecx);
        proof {
            let (e, c) = choose|e: &mut Drawable<E>, c: &mut ElementContext| #[trigger]
                call_ensures(Drawable::<E>::request_layout, (e, c), requested) && *e == *old(root)
                    && *c == cx1 && *final(e) == *root && *final(c) == ecx;
            assert(call_ensures(Drawable::<E>::request_layout, (e, c), requested));
        }
        self.leave(ecx);
        requested
    }

    /// The second walk of a frame: has the root look up its bounds, prepaint
    /// and paint, and puts what it draws after the draw commands of the frame
    /// under way.
    ///
    /// Granted to a root that has requested layout, once the solver's result is
    /// in. Refused otherwise, with the root and the window as they are.
    pub fn paint_pass<E: Element>(&mut self, root: &mut Drawable<E>) -> (r: Result<
        (),
        ProtocolError,
    >)
        requires
            old(root).wf(),
        ensures
            final(root).wf(),
            old(root).spec_stage() == NodeStage::LayoutRequested && old(self).window.layout.bounds()
                is Some ==> {
                &&& r is Ok
                &&& final(root).spec_stage() == NodeStage::Painted
                &&& exists|
                    e2: &mut Drawable<E>,
                    c2: &mut ElementContext,
                    e3: &mut Drawable<E>,
                    c3: &mut ElementContext,
                |
                    #![trigger
                        call_ensures(Drawable::<E>::prepaint, (e2, c2), Ok::<(), ProtocolError>(())),
                        call_ensures(Drawable::<E>::paint, (e3, c3), Ok::<(), ProtocolError>(())),
                    ]
                    {
                        &&& call_ensures(
                            Drawable::<E>::prepaint,
                            (e2, c2),
                            Ok::<(), ProtocolError>(()),
                        )
                        &&& call_ensures(Drawable::<E>::paint, (e3, c3), Ok::<(), ProtocolError>(()))
                        &&& e2.wf()
                        &&& e2.element() == old(root).element()
                        &&& e2.spec_stage() == NodeStage::BoundsResolved
                        &&& e2.spec_bounds() == Some(
                            old(self).window.layout.spec_layout_bounds(
                                old(root).spec_layout_id()->0,
                            ),
                        )
                        &&& e2.layout_state() == old(root).layout_state()
                        &&& c2.state() == *old(self)
                        &&& c2.draw_phase() == DrawPhase::Idle
                        &&& c2.recorded() == Seq::<Primitive>::empty()
                        &&& c2.active_regions() == Seq::<ScopedRegion>::empty()
                        &&& *e3 == *final(e2)
                        &&& *c3 == *final(c2)
                        &&& *final(root) == *final(e3)
                        &&& final(self).app == final(c3).state().app
                        &&& final(self).window.same_but_frame(&final(c3).state().window)
                        &&& final(self).window.next_frame@
                            == final(c3).state().window.next_frame@ + final(c3).recorded()
                    }
            },
            old(root).spec_stage() == NodeStage::LayoutRequested && old(self).window.layout.bounds()
                is None ==> {
                &&& r == Err::<(), ProtocolError>(ProtocolError::LayoutNotSolved)
                &&& *final(root) == *old(root)
                &&& *final(self) == *old(self)
            },
            old(root).spec_stage() == NodeStage::Unregistered ==> {
                &&& r == Err::<(), ProtocolError>(ProtocolError::LayoutNotRequested)
                &&& *final(root) == *old(root)
                &&& *final(self) == *old(self)
            },
            old(root).spec_stage() != NodeStage::Unregistered && old(root).spec_stage()
                != NodeStage::LayoutRequested ==> {
                &&& r == Err::<(), ProtocolError>(ProtocolError::BoundsAlreadyResolved)
                &&& *final(root) == *old(root)
                &&& *final(self) == *old(self)
            },
    {
        match root.stage() {
            NodeStage::Unregistered => {
                return Err(ProtocolError::LayoutNotRequested);
            },
            NodeStage::LayoutRequested => {},
            _ => {
                return Err(ProtocolError::BoundsAlreadyResolved);
            },
        }
        if !self.window.layout.is_resolved() {
            return Err(ProtocolError::LayoutNotSolved);
        }
        let mut ecx = self.enter();
        let resolved = root.resolve_bounds(&ecx);
        assert(resolved is Ok);
        let ghost root2 = *root;
        let ghost cx2 = ecx;
        let prepainted = root.prepaint(&mut ecx);
        let ghost root3 = *root;
        let ghost cx3 = ecx;
        let painted = root.paint(&mut ecx);
        proof {
            let (e2, c2) = choose|e: &mut Drawable<E>, c: &mut ElementContext| #[trigger]
                call_ensures(Drawable::<E>::prepaint, (e, c), prepainted) && *e == root2 && *c
                    == cx2 && *final(e) == root3 && *final(c) == cx3;
            let (e3, c3) = choose|e: &mut Drawable<E>, c: &mut ElementContext| #[trigger]
                call_ensures(Drawable::<E>::paint, (e, c), painted) && *e == root3 && *c == cx3
                    && *final(e) == *root && *final(c) == ecx;
            assert(prepainted is Ok && painted is Ok);
            assert(prepainted->Ok_0 == () && painted->Ok_0 == ());
            assert(prepainted =~= Ok::<(), ProtocolError>(()));
            assert(painted =~= Ok::<(), ProtocolError>(()));
            assert(call_ensures(Drawable::<E>::prepaint, (e2, c2), Ok::<(), ProtocolError>(())));
            assert(call_ensures(Drawable::<E>::paint, (e3, c3), Ok::<(), ProtocolError>(())));
        }
        self.leave(ecx);
        painted
    }
}

impl WindowContext {
    /// Draws one frame of the tree under `root`: the first walk, the solver, the
    /// second walk.
    ///
    /// `solve` stands for the layout solver: it is called once, between the
    /// walks, with the layout requests of the tree, and returns the bounds of
    /// every request, in the order of the handles.
    ///
    /// Granted to a root that has not requested layout. The frame is completed,
    /// and handed out, where the solver returns as many bounds as there are
    /// requests; it is then balanced, and the root has painted. Where the solver
    /// returns more or fewer, the frame is given up after the first walk.
    pub fn draw<E: Element, S: FnOnce(&LayoutEngine) -> Vec<Bounds>>(
        &mut self,
        root: &mut Drawable<E>,
        solve: S,
    ) -> (r: Result<Vec<Primitive>, FrameError>)
        requires
            old(root).wf(),
            forall|engine: &LayoutEngine| #[trigger] solve.requires((engine,)),
        ensures
            final(root).wf(),
            old(root).spec_stage() != NodeStage::Unregistered ==> {
                &&& r is Err
                &&& r->Err_0 == FrameError::Protocol(ProtocolError::LayoutAlreadyRequested)
                &&& *final(root) == *old(root)
                &&& *final(self) == *old(self)
            },
            old(root).spec_stage() == NodeStage::Unregistered ==> exists|
                w1: &mut WindowContext,
                r1: &mut Drawable<E>,
                id: LayoutId,
                solved: Vec<Bounds>,
            |
                {
                    &&& #[trigger] call_ensures(
                        WindowContext::layout_pass::<E>,
                        (w1, r1),
                        Ok::<LayoutId, ProtocolError>(id),
                    )
                    &&& *w1 == *old(self)
                    &&& *r1 == *old(root)
                    &&& #[trigger] solve.ensures((&final(w1).window.layout,), solved)
                    &&& solved@.len() != final(w1).window.layout.requests().len() ==> {
                        &&& r is Err
                        &&& r->Err_0 == FrameError::Layout(LayoutError::BoundsMismatch)
                        &&& *final(root) == *final(r1)
                        &&& *final(self) == *final(w1)
                    }
                    &&& solved@.len() == final(w1).window.layout.requests().len() ==> {
                        &&& r is Ok
                        &&& balanced(r->Ok_0@)
                        &&& final(root).spec_stage() == NodeStage::Painted
                        &&& final(self).window.next_frame@ == Seq::<Primitive>::empty()
                        &&& exists|w2: &mut WindowContext, r2: &mut Drawable<E>|
                            {
                                &&& #[trigger] call_ensures(
                                    WindowContext::paint_pass::<E>,
                                    (w2, r2),
                                    Ok::<(), ProtocolError>(()),
                                )
                                &&& *r2 == *final(r1)
                                &&& w2.app == final(w1).app
                                &&& w2.window.same_but_layout(&final(w1).window)
                                &&& w2.window.layout.requests()
                                    == final(w1).window.layout.requests()
                                &&& w2.window.layout.bounds() == Some(solved@)
                                &&& *final(root) == *final(r2)
                                &&& r->Ok_0@ == final(w2).window.next_frame@
                                &&& final(self).app == final(w2).app
                                &&& final(self).window.same_but_frame(&final(w2).window)
                            }
                    }
                },
    {
        let ghost w0 = *self;
        let ghost r0 = *root;
        let requested = self.layout_pass(root);
        let id = match requested {
            Ok(id) => id,
            Err(e) => {
                return Err(FrameError::Protocol(e));
            },
        };
        let ghost w1_after = *self;
        let ghost r1_after = *root;
        let solved = solve(&self.window.layout);
        let ghost solved_copy = solved;
        proof {
            let (w1, r1) = choose|w: &mut WindowContext, r: &mut Drawable<E>| #[trigger]
                call_ensures(WindowContext::layout_pass::<E>, (w, r), requested) && *w == w0 && *r
                    == r0 && *final(w) == w1_after && *final(r) == r1_after;
            assert(requested =~= Ok::<LayoutId, ProtocolError>(id));
            assert(call_ensures(
                WindowContext::layout_pass::<E>,
                (w1, r1),
                Ok::<LayoutId, ProtocolError>(id),
            ));
            assert(solve.ensures((&final(w1).window.layout,), solved_copy));
        }
        match self.window.layout.resolve(solved) {
            Ok(()) => {},
            Err(e) => {
                return Err(FrameError::Layout(e));
            },
        }
        let ghost w2_before = *self;
        let painted = self.paint_pass(root);
        let ghost w2_after = *self;
        proof {
            let (w2, r2) = choose|w: &mut WindowContext, r: &mut Drawable<E>| #[trigger]
                call_ensures(WindowContext::paint_pass::<E>, (w, r), painted) && *w == w2_before
                    && *r == r1_after && *final(w) == w2_after && *final(r) == *root;
            assert(painted is Ok);
            assert(painted->Ok_0 == ());
            assert(painted =~= Ok::<(), ProtocolError>(()));
            assert(call_ensures(
                WindowContext::paint_pass::<E>,
                (w2, r2),
                Ok::<(), ProtocolError>(()),
            ));
        }
        match painted {
            Ok(()) => Ok(self.window.take_frame()),
            Err(e) => Err(FrameError::Protocol(e)),
        }
    }
}

} // verus!
