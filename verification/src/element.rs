//! The three-step protocol that every visual node obeys, and the slot that holds
//! a node to it.
//!
//! In every frame a node requests layout, prepaints once its bounds are known, and
//! paints. What one step produces is handed to the next: the layout step's state
//! goes to prepaint and paint, the prepaint step's payload goes to paint. A
//! [`Drawable`] holds a node together with the stage it has reached and what it
//! has produced so far. It takes the node through the steps in order, each once,
//! and refuses a step that is asked for out of order or a second time.

use vstd::prelude::*;
use crate::geometry::Bounds;
use crate::scene::balanced;
use crate::window::element_cx::{
    DrawPhase,
    ElementContext,
    PaintContext,
    PrepaintContext,
    RequestLayoutContext,
};
use crate::window::LayoutId;

verus! {

/// A visual node: something that can request layout, prepaint and paint.
///
/// A node is single-use per frame: it takes each step once, in order. The three
/// predicates say which step a node is ready to take next. What a step promises
/// of the node is that it is ready for the step after it.
pub trait Element: Sized {
    /// What the layout step carries forward to the later steps.
    type RequestLayoutState;

    /// What the prepaint step computes for the paint step.
    type PrepaintState;

    /// Whether the node has taken no step in this frame and can take all three.
    spec fn awaits_layout(&self) -> bool;

    /// Whether the node can take its prepaint step, and its paint step after
    /// it.
    spec fn awaits_prepaint(&self) -> bool;

    /// Whether the node can take its paint step with the payload `prepaint`.
    spec fn awaits_paint(&self, prepaint: &Self::PrepaintState) -> bool;

    /// Registers the node with the layout engine and returns its handle, along
    /// with the state that the later steps need.
    ///
    /// Bounds are not known at this time: the step draws nothing.
    fn request_layout(&mut self, cx: &mut RequestLayoutContext) -> (r: (
        LayoutId,
        Self::RequestLayoutState,
    ))
        requires
            old(self).awaits_layout(),
            old(cx).draw_phase() == DrawPhase::Layout,
        ensures
            final(self).awaits_prepaint(),
    ;

    /// Computes, for the bounds that layout gave the node, what its paint step
    /// needs.
    fn prepaint(
        &mut self,
        bounds: Bounds,
        request_layout: &mut Self::RequestLayoutState,
        cx: &mut PrepaintContext,
    ) -> (p: Self::PrepaintState)
        requires
            old(self).awaits_prepaint(),
            old(cx).draw_phase() == DrawPhase::Prepaint,
        ensures
            final(self).awaits_paint(&p),
    ;

    /// Records the node's draw commands.
    fn paint(
        &mut self,
        bounds: Bounds,
        request_layout: &mut Self::RequestLayoutState,
        prepaint: &mut Self::PrepaintState,
        cx: &mut PaintContext,
    )
        requires
            old(self).awaits_paint(old(prepaint)),
            old(cx).draw_phase() == DrawPhase::Paint,
    ;
}

/// Something that can be turned into a node.
pub trait IntoElement: Sized {
    /// The node that this turns into.
    type Element: Element;

    /// Whether `element` is what this turns into.
    spec fn turns_into(&self, element: &Self::Element) -> bool;

    /// Turns this into a node.
    fn into_element(self) -> (element: Self::Element)
        ensures
            self.turns_into(&element),
    ;
}

/// The stage that a node has reached in the current frame.
#[derive(Clone, Copy, Debug, PartialEq, Eq, Structural)]
pub enum NodeStage {
    /// The node has not requested layout.
    Unregistered,
    /// The node has requested layout; its bounds are not known.
    LayoutRequested,
    /// The node's bounds are known.
    BoundsResolved,
    /// The node has prepainted.
    Prepainted,
    /// The node has painted.
    Painted,
}

/// A step that was asked of a node out of order.
#[derive(Clone, Copy, Debug, PartialEq, Eq, Structural)]
pub enum ProtocolError {
    /// Layout was requested of a node that had requested it already.
    LayoutAlreadyRequested,
    /// Bounds were to be resolved for a node that has not requested layout.
    LayoutNotRequested,
    /// Bounds were to be resolved while the solver's result was not in.
    LayoutNotSolved,
    /// Bounds were to be resolved for a node whose bounds were known already.
    BoundsAlreadyResolved,
    /// Prepaint was asked of a node whose bounds are not known.
    BoundsNotResolved,
    /// Prepaint was asked of a node that had prepainted already.
    AlreadyPrepainted,
    /// Paint was asked of a node that has not prepainted.
    NotPrepainted,
    /// Paint was asked of a node that had painted already.
    AlreadyPainted,
}

/// One of the steps that a slot takes its node through.
#[derive(Clone, Copy, Debug, PartialEq, Eq, Structural)]
pub enum Step {
    /// The node requests layout.
    RequestLayout,
    /// The node's bounds are looked up.
    ResolveBounds,
    /// The node prepaints.
    Prepaint,
    /// The node paints.
    Paint,
}

impl NodeStage {
    /// The number of steps that a node at this stage has taken.
    pub open spec fn rank(self) -> int {
        match self {
            NodeStage::Unregistered => 0,
            NodeStage::LayoutRequested => 1,
            NodeStage::BoundsResolved => 2,
            NodeStage::Prepainted => 3,
            NodeStage::Painted => 4,
        }
    }
}

impl Step {
    /// The stage at which a node must be for the step to be granted.
    pub open spec fn granted_at(self) -> NodeStage {
        match self {
            Step::RequestLayout => NodeStage::Unregistered,
            Step::ResolveBounds => NodeStage::LayoutRequested,
            Step::Prepaint => NodeStage::BoundsResolved,
            Step::Paint => NodeStage::Prepainted,
        }
    }

    /// The stage that a node reaches by the step.
    pub open spec fn leads_to(self) -> NodeStage {
        match self {
            Step::RequestLayout => NodeStage::LayoutRequested,
            Step::ResolveBounds => NodeStage::BoundsResolved,
            Step::Prepaint => NodeStage::Prepainted,
            Step::Paint => NodeStage::Painted,
        }
    }

    /// The error with which the step is refused to a node at `stage`: one
    /// error for a node that has not come far enough, another for a node that
    /// has taken the step already.
    pub open spec fn refusal(self, stage: NodeStage) -> ProtocolError {
        match self {
            Step::RequestLayout => ProtocolError::LayoutAlreadyRequested,
            Step::ResolveBounds => if stage.rank() < Step::ResolveBounds.granted_at().rank() {
                ProtocolError::LayoutNotRequested
            } else {
                ProtocolError::BoundsAlreadyResolved
            },
            Step::Prepaint => if stage.rank() < Step::Prepaint.granted_at().rank() {
                ProtocolError::BoundsNotResolved
            } else {
                ProtocolError::AlreadyPrepainted
            },
            Step::Paint => if stage.rank() < Step::Paint.granted_at().rank() {
                ProtocolError::NotPrepainted
            } else {
                ProtocolError::AlreadyPainted
            },
        }
    }
}

/// Every step takes a node exactly one stage further, so the steps are taken in
/// one order only: layout, bounds, prepaint, paint. In particular a node paints
/// only after it has prepainted, and prepaints only after its bounds are known.
pub proof fn lemma_steps_in_order(step: Step)
    ensures
        step.leads_to().rank() == step.granted_at().rank() + 1,
        Step::RequestLayout.leads_to() == Step::ResolveBounds.granted_at(),
        Step::ResolveBounds.leads_to() == Step::Prepaint.granted_at(),
        Step::Prepaint.leads_to() == Step::Paint.granted_at(),
        Step::Paint.granted_at() == NodeStage::Prepainted,
        Step::Prepaint.granted_at() == NodeStage::BoundsResolved,
{
}

/// A step that a node has taken is not granted to it again: at the stage that
/// the step leads to, and at every later stage, the step is refused.
pub proof fn lemma_step_granted_once(step: Step, later: NodeStage)
    requires
        later.rank() >= step.leads_to().rank(),
    ensures
        later != step.granted_at(),
{
}

/// What a node has produced so far in the current frame.
enum Progress<L, P> {
    Start,
    LayoutRequested { layout_id: LayoutId, request_layout: L },
    BoundsResolved { layout_id: LayoutId, bounds: Bounds, request_layout: L },
    Prepainted { bounds: Bounds, request_layout: L, prepaint: P },
    Painted,
}

/// A stable identity of a node: the name under which what belongs to the node
/// can be found again in a later frame.
#[derive(Clone, Copy, Debug, PartialEq, Eq, Structural)]
pub struct ElementId(pub u64);

/// A node in its slot: the node, its identity if it has one, the stage it has
/// reached in the current frame, and what its steps have produced so far.
pub struct Drawable<E: Element> {
    element: E,
    id: Option<ElementId>,
    progress: Progress<E::RequestLayoutState, E::PrepaintState>,
}

impl<E: Element> Drawable<E> {
    /// The node in the slot.
    pub closed spec fn element(&self) -> E {
        self.element
    }

    /// The identity of the node, if it has one.
    pub closed spec fn spec_id(&self) -> Option<ElementId> {
        self.id
    }

    /// The stage that the node has reached.
    pub closed spec fn spec_stage(&self) -> NodeStage {
        match self.progress {
            Progress::Start => NodeStage::Unregistered,
            Progress::LayoutRequested { .. } => NodeStage::LayoutRequested,
            Progress::BoundsResolved { .. } => NodeStage::BoundsResolved,
            Progress::Prepainted { .. } => NodeStage::Prepainted,
            Progress::Painted => NodeStage::Painted,
        }
    }

    /// The handle that the layout engine gave the node, while the node waits for
    /// its prepaint.
    pub closed spec fn spec_layout_id(&self) -> Option<LayoutId> {
        match self.progress {
            Progress::LayoutRequested { layout_id, .. } => Some(layout_id),
            Progress::BoundsResolved { layout_id, .. } => Some(layout_id),
            _ => None,
        }
    }

    /// The bounds that layout gave the node, once they are known and until the
    /// node has painted.
    pub closed spec fn spec_bounds(&self) -> Option<Bounds> {
        match self.progress {
            Progress::BoundsResolved { bounds, .. } => Some(bounds),
            Progress::Prepainted { bounds, .. } => Some(bounds),
            _ => None,
        }
    }

    /// What the node's layout step carried forward, from the layout step until
    /// the node has painted.
    pub closed spec fn layout_state(&self) -> Option<E::RequestLayoutState> {
        match self.progress {
            Progress::LayoutRequested { request_layout, .. } => Some(request_layout),
            Progress::BoundsResolved { request_layout, .. } => Some(request_layout),
            Progress::Prepainted { request_layout, .. } => Some(request_layout),
            _ => None,
        }
    }

    /// What the node's prepaint step computed, from the prepaint step until the
    /// node has painted.
    pub closed spec fn payload(&self) -> Option<E::PrepaintState> {
        match self.progress {
            Progress::Prepainted { prepaint, .. } => Some(prepaint),
            _ => None,
        }
    }

    /// Whether the node can take the steps that its stage leaves it to take.
    pub closed spec fn wf(&self) -> bool {
        match self.progress {
            Progress::Start => self.element.awaits_layout(),
            Progress::LayoutRequested { .. } => self.element.awaits_prepaint(),
            Progress::BoundsResolved { .. } => self.element.awaits_prepaint(),
            Progress::Prepainted { prepaint, .. } => self.element.awaits_paint(&prepaint),
            Progress::Painted => true,
        }
    }

    /// Puts a fresh node into a slot, without an identity.
    pub fn new(element: E) -> (slot: Drawable<E>)
        requires
            element.awaits_layout(),
        ensures
            slot.wf(),
            slot.element() == element,
            slot.spec_id() is None,
            slot.spec_stage() == NodeStage::Unregistered,
    {
        Drawable { element, id: None, progress: Progress::Start }
    }

    /// Puts a fresh node into a slot, under the identity `id`.
    pub fn with_id(element: E, id: ElementId) -> (slot: Drawable<E>)
        requires
            element.awaits_layout(),
        ensures
            slot.wf(),
            slot.element() == element,
            slot.spec_id() == Some(id),
            slot.spec_stage() == NodeStage::Unregistered,
    {
        Drawable { element, id: Some(id), progress: Progress::Start }
    }

    /// The identity of the node, if it has one. No step changes it.
    #[verifier::when_used_as_spec(spec_id)]
    pub fn id(&self) -> (id: Option<ElementId>)
        ensures
            id == self.spec_id(),
    {
        self.id
    }

    /// The stage that the node has reached.
    #[verifier::when_used_as_spec(spec_stage)]
    pub fn stage(&self) -> (stage: NodeStage)
        ensures
            stage == self.spec_stage(),
    {
        match &self.progress {
            Progress::Start => NodeStage::Unregistered,
            Progress::LayoutRequested { .. } => NodeStage::LayoutRequested,
            Progress::BoundsResolved { .. } => NodeStage::BoundsResolved,
            Progress::Prepainted { .. } => NodeStage::Prepainted,
            Progress::Painted => NodeStage::Painted,
        }
    }

    /// The handle that the layout engine gave the node, while the node waits for
    /// its prepaint.
    #[verifier::when_used_as_spec(spec_layout_id)]
    pub fn layout_id(&self) -> (id: Option<LayoutId>)
        ensures
            id == self.spec_layout_id(),
    {
        match &self.progress {
            Progress::LayoutRequested { layout_id, .. } => Some(*layout_id),
            Progress::BoundsResolved { layout_id, .. } => Some(*layout_id),
            _ => None,
        }
    }

    /// The bounds that layout gave the node, once they are known and until the
    /// node has painted.
    #[verifier::when_used_as_spec(spec_bounds)]
    pub fn bounds(&self) -> (b: Option<Bounds>)
        ensures
            b == self.spec_bounds(),
    {
        match &self.progress {
            Progress::BoundsResolved { bounds, .. } => Some(*bounds),
            Progress::Prepainted { bounds, .. } => Some(*bounds),
            _ => None,
        }
    }

    /// Has the node request layout.
    ///
    /// Granted to a node that has not requested layout in this frame, and to no
    /// other: a second request is refused, and leaves the slot and the context
    /// as they are. The node's step runs in a scope of its own, in which nothing
    /// is drawn: afterwards the context records, scopes and serves as before.
    pub fn request_layout(&mut self, cx: &mut ElementContext) -> (r: Result<
        LayoutId,
        ProtocolError,
    >)
        requires
            old(self).wf(),
        ensures
            final(self).wf(),
            final(self).spec_id() == old(self).spec_id(),
            final(cx).same_frame_state(old(cx)),
            r is Ok <==> old(self).spec_stage() == Step::RequestLayout.granted_at(),
            r is Ok ==> final(self).spec_stage() == Step::RequestLayout.leads_to(),
            r is Err ==> r->Err_0 == Step::RequestLayout.refusal(old(self).spec_stage()),
            old(self).spec_stage() == NodeStage::Unregistered ==> {
                &&& r is Ok
                &&& final(self).spec_stage() == NodeStage::LayoutRequested
                &&& final(self).spec_layout_id() == Some(r->Ok_0)
                &&& final(self).layout_state() is Some
                &&& exists|e: &mut E, c: &mut ElementContext|
                    {
                        &&& #[trigger] call_ensures(
                            E::request_layout,
                            (e, c),
                            (r->Ok_0, final(self).layout_state()->0),
                        )
                        &&& *e == old(self).element()
                        &&& *final(e) == final(self).element()
                        &&& c.is_inside(old(cx), DrawPhase::Layout, None)
                        &&& final(c).state() == final(cx).state()
                    }
            },
            old(self).spec_stage() != NodeStage::Unregistered ==> {
                &&& r == Err::<LayoutId, ProtocolError>(ProtocolError::LayoutAlreadyRequested)
                &&& *final(self) == *old(self)
                &&& *final(cx) == *old(cx)
            },
    {
        let mut progress = Progress::Painted;
        core::mem::swap(&mut progress, &mut self.progress);
        match progress {
            Progress::Start => {
                let saved = cx.open_scope(DrawPhase::Layout, None);
                let (layout_id, request_layout) = self.element.request_layout(cx);
                cx.abandon_scope(saved);
                self.progress = Progress::LayoutRequested { layout_id, request_layout };
                Ok(layout_id)
            },
            other => {
                self.progress = other;
                Err(ProtocolError::LayoutAlreadyRequested)
            },
        }
    }
}

impl<E: Element> Drawable<E> {
    /// Looks up the bounds that the layout solver gave the node.
    ///
    /// Granted to a node that has requested layout and waits for its bounds,
    /// once the solver's result is in. Refused, with the slot unchanged, to any
    /// other node, and while the solver's result is not in.
    pub fn resolve_bounds(&mut self, cx: &ElementContext) -> (r: Result<Bounds, ProtocolError>)
        requires
            old(self).wf(),
        ensures
            final(self).wf(),
            final(self).spec_id() == old(self).spec_id(),
            final(self).element() == old(self).element(),
            r is Ok <==> old(self).spec_stage() == Step::ResolveBounds.granted_at()
                && cx.state().window.layout.bounds() is Some,
            r is Ok ==> final(self).spec_stage() == Step::ResolveBounds.leads_to(),
            r is Err && old(self).spec_stage() != Step::ResolveBounds.granted_at() ==> r->Err_0
                == Step::ResolveBounds.refusal(old(self).spec_stage()),
            old(self).spec_stage() == NodeStage::LayoutRequested
                && cx.state().window.layout.bounds() is Some ==> {
                &&& r == Ok::<Bounds, ProtocolError>(
                    cx.state().window.layout.spec_layout_bounds(old(self).spec_layout_id()->0),
                )
                &&& final(self).spec_stage() == NodeStage::BoundsResolved
                &&& final(self).spec_bounds() == Some(r->Ok_0)
                &&& final(self).spec_layout_id() == old(self).spec_layout_id()
                &&& final(self).layout_state() == old(self).layout_state()
            },
            old(self).spec_stage() == NodeStage::LayoutRequested
                && cx.state().window.layout.bounds() is None ==> {
                &&& r == Err::<Bounds, ProtocolError>(ProtocolError::LayoutNotSolved)
                &&& *final(self) == *old(self)
            },
            old(self).spec_stage() == NodeStage::Unregistered ==> {
                &&& r == Err::<Bounds, ProtocolError>(ProtocolError::LayoutNotRequested)
                &&& *final(self) == *old(self)
            },
            old(self).spec_stage() != NodeStage::Unregistered && old(self).spec_stage()
                != NodeStage::LayoutRequested ==> {
                &&& r == Err::<Bounds, ProtocolError>(ProtocolError::BoundsAlreadyResolved)
                &&& *final(self) == *old(self)
            },
    {
        let solved = cx.window().layout.is_resolved();
        let mut progress = Progress::Painted;
        core::mem::swap(&mut progress, &mut self.progress);
        match progress {
            Progress::Start => {
                self.progress = Progress::Start;
                Err(ProtocolError::LayoutNotRequested)
            },
            Progress::LayoutRequested { layout_id, request_layout } => {
                if solved {
                    let bounds = cx.layout_bounds(layout_id);
                    self.progress = Progress::BoundsResolved { layout_id, bounds, request_layout };
                    Ok(bounds)
                } else {
                    self.progress = Progress::LayoutRequested { layout_id, request_layout };
                    Err(ProtocolError::LayoutNotSolved)
                }
            },
            other => {
                self.progress = other;
                Err(ProtocolError::BoundsAlreadyResolved)
            },
        }
    }

    /// Has the node prepaint.
    ///
    /// Granted to a node whose bounds are known and that has not prepainted, and
    /// to no other: before the bounds are known, and a second time, the step is
    /// refused, and the slot and the context are left as they are. The node's
    /// step runs once, with the bounds, in a scope of its own, in which nothing
    /// is drawn: afterwards the context records, scopes and serves as before.
    pub fn prepaint(&mut self, cx: &mut ElementContext) -> (r: Result<(), ProtocolError>)
        requires
            old(self).wf(),
        ensures
            final(self).wf(),
            final(self).spec_id() == old(self).spec_id(),
            final(cx).same_frame_state(old(cx)),
            r is Ok <==> old(self).spec_stage() == Step::Prepaint.granted_at(),
            r is Ok ==> final(self).spec_stage() == Step::Prepaint.leads_to(),
            r is Err ==> r->Err_0 == Step::Prepaint.refusal(old(self).spec_stage()),
            old(self).spec_stage() == NodeStage::BoundsResolved ==> {
                &&& r is Ok
                &&& final(self).spec_stage() == NodeStage::Prepainted
                &&& final(self).spec_bounds() == old(self).spec_bounds()
                &&& final(self).payload() is Some
                &&& exists|e: &mut E, st: &mut E::RequestLayoutState, c: &mut ElementContext|
                    {
                        &&& #[trigger] call_ensures(
                            E::prepaint,
                            (e, old(self).spec_bounds()->0, st, c),
                            final(self).payload()->0,
                        )
                        &&& *e == old(self).element()
                        &&& *final(e) == final(self).element()
                        &&& Some(*st) == old(self).layout_state()
                        &&& Some(*final(st)) == final(self).layout_state()
                        &&& c.is_inside(old(cx), DrawPhase::Prepaint, None)
                        &&& final(c).state() == final(cx).state()
                    }
            },
            old(self).spec_stage() == NodeStage::Unregistered || old(self).spec_stage()
                == NodeStage::LayoutRequested ==> {
                &&& r == Err::<(), ProtocolError>(ProtocolError::BoundsNotResolved)
                &&& *final(self) == *old(self)
                &&& *final(cx) == *old(cx)
            },
            old(self).spec_stage() == NodeStage::Prepainted || old(self).spec_stage()
                == NodeStage::Painted ==> {
                &&& r == Err::<(), ProtocolError>(ProtocolError::AlreadyPrepainted)
                &&& *final(self) == *old(self)
                &&& *final(cx) == *old(cx)
            },
    {
        let mut progress = Progress::Painted;
        core::mem::swap(&mut progress, &mut self.progress);
        match progress {
            Progress::BoundsResolved { layout_id: _, bounds, request_layout } => {
                let mut request_layout = request_layout;
                let saved = cx.open_scope(DrawPhase::Prepaint, None);
                let ghost inside = *cx;
                let prepaint = self.element.prepaint(bounds, &mut request_layout, cx);
                let ghost left = *cx;
                cx.abandon_scope(saved);
                self.progress = Progress::Prepainted { bounds, request_layout, prepaint };
                proof {
                    // The call just made is the witness of the contract's
                    // last clause.
                    let (e, st, c) = choose|
                        e: &mut E,
                        st: &mut E::RequestLayoutState,
                        c: &mut ElementContext,
                    | #[trigger]
                        call_ensures(E::prepaint, (e, bounds, st, c), prepaint)
                            && *e == old(self).element() && *final(e) == self.element
                            && Some(*st) == old(self).layout_state()
                            && *final(st) == request_layout && *c == inside && *final(c) == left;
                    assert(call_ensures(
                        E::prepaint,
                        (e, old(self).spec_bounds()->0, st, c),
                        self.payload()->0,
                    ));
                    assert(*e == old(self).element());
                    assert(*final(e) == self.element());
                    assert(Some(*st) == old(self).layout_state());
                    assert(Some(*final(st)) == self.layout_state());
                    assert(c.is_inside(old(cx), DrawPhase::Prepaint, None));
                    assert(final(c).state() == cx.state());
                }
                Ok(())
            },
            Progress::Start => {
                self.progress = Progress::Start;
                Err(ProtocolError::BoundsNotResolved)
            },
            Progress::LayoutRequested { layout_id, request_layout } => {
                self.progress = Progress::LayoutRequested { layout_id, request_layout };
                Err(ProtocolError::BoundsNotResolved)
            },
            other => {
                self.progress = other;
                Err(ProtocolError::AlreadyPrepainted)
            },
        }
    }

    /// Has the node paint.
    ///
    /// Granted to a node that has prepainted and has not painted, and to no
    /// other: before the prepaint, and a second time, the step is refused, and
    /// the slot and the context are left as they are. The node's step runs
    /// once, with the bounds, the layout state and the payload, in a scope of
    /// its own. What it records is put after what was recorded before, and is
    /// balanced; the open regions and the step under way are afterwards what
    /// they were before, whatever the node did.
    pub fn paint(&mut self, cx: &mut ElementContext) -> (r: Result<(), ProtocolError>)
        requires
            old(self).wf(),
        ensures
            final(self).wf(),
            final(self).spec_id() == old(self).spec_id(),
            final(cx).active_regions() == old(cx).active_regions(),
            final(cx).draw_phase() == old(cx).draw_phase(),
            r is Ok <==> old(self).spec_stage() == Step::Paint.granted_at(),
            r is Ok ==> final(self).spec_stage() == Step::Paint.leads_to(),
            r is Err ==> r->Err_0 == Step::Paint.refusal(old(self).spec_stage()),
            old(self).spec_stage() == NodeStage::Prepainted ==> {
                &&& r is Ok
                &&& final(self).spec_stage() == NodeStage::Painted
                &&& exists|
                    e: &mut E,
                    st: &mut E::RequestLayoutState,
                    p: &mut E::PrepaintState,
                    c: &mut ElementContext,
                |
                    {
                        &&& #[trigger] call_ensures(
                            E::paint,
                            (e, old(self).spec_bounds()->0, st, p, c),
                            (),
                        )
                        &&& *e == old(self).element()
                        &&& *final(e) == final(self).element()
                        &&& Some(*st) == old(self).layout_state()
                        &&& Some(*p) == old(self).payload()
                        &&& c.is_inside(old(cx), DrawPhase::Paint, None)
                        &&& balanced(final(c).recorded())
                        &&& final(cx).recorded() == old(cx).recorded() + final(c).recorded()
                        &&& final(cx).state() == final(c).state()
                    }
            },
            old(self).spec_stage() == NodeStage::Painted ==> {
                &&& r == Err::<(), ProtocolError>(ProtocolError::AlreadyPainted)
                &&& *final(self) == *old(self)
                &&& *final(cx) == *old(cx)
            },
            old(self).spec_stage() != NodeStage::Prepainted && old(self).spec_stage()
                != NodeStage::Painted ==> {
                &&& r == Err::<(), ProtocolError>(ProtocolError::NotPrepainted)
                &&& *final(self) == *old(self)
                &&& *final(cx) == *old(cx)
            },
    {
        let mut progress = Progress::Painted;
        core::mem::swap(&mut progress, &mut self.progress);
        match progress {
            Progress::Prepainted { bounds, request_layout, prepaint } => {
                let mut request_layout = request_layout;
                let mut prepaint = prepaint;
                let saved = cx.open_scope(DrawPhase::Paint, None);
                let ghost inside = *cx;
                self.element.paint(bounds, &mut request_layout, &mut prepaint, cx);
                let ghost left = *cx;
                cx.close_scope(saved, None);
                proof {
                    // The call just made is the witness of the contract's
                    // last clause.
                    let (e, st, p, c) = choose|
                        e: &mut E,
                        st: &mut E::RequestLayoutState,
                        p: &mut E::PrepaintState,
                        c: &mut ElementContext,
                    | #[trigger]
                        call_ensures(E::paint, (e, bounds, st, p, c), ())
                            && *e == old(self).element() && *final(e) == self.element
                            && Some(*st) == old(self).layout_state()
                            && Some(*p) == old(self).payload() && *c == inside
                            && *final(c) == left;
                    assert(call_ensures(E::paint, (e, old(self).spec_bounds()->0, st, p, c), ()));
                    assert(*e == old(self).element());
                    assert(*final(e) == self.element());
                    assert(Some(*st) == old(self).layout_state());
                    assert(Some(*p) == old(self).payload());
                    assert(c.is_inside(old(cx), DrawPhase::Paint, None));
                    assert(balanced(final(c).recorded()));
                    assert(cx.recorded() =~= old(cx).recorded() + final(c).recorded());
                    assert(cx.state() == final(c).state());
                }
                Ok(())
            },
            Progress::Painted => Err(ProtocolError::AlreadyPainted),
            other => {
                self.progress = other;
                Err(ProtocolError::NotPrepainted)
            },
        }
    }

    /// Takes the node out of its slot, as it is.
    pub fn into_element(self) -> (element: E)
        ensures
            element == self.element(),
    {
        self.element
    }
}

} // verus!
