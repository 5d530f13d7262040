//! The group: a node that decorates a box and holds child nodes in it.
//!
//! A group takes its children through each step when it takes the step itself, in
//! the order in which they were added: a group's step is a depth-first walk of its
//! sub-tree. When it paints, its own decorations come first, then what its
//! children draw, inside the group's scoped region, then the group's border.

use vstd::prelude::*;
use crate::element::{Drawable, Element, IntoElement, NodeStage};
use crate::geometry::Bounds;
use crate::scene::{balanced, lemma_balanced_concat, lemma_balanced_empty, Primitive};
use crate::style::{cascade, merge, Style, StyleRefinement, Styled};
use crate::window::element_cx::{
    regions_inside,
    DrawPhase,
    ElementContext,
    PaintContext,
    PrepaintContext,
    RequestLayoutContext,
};
use crate::window::{LayoutEngine, LayoutId, WindowContext};

verus! {

/// A node with child nodes.
pub struct Group<E: Element> {
    children: Vec<Drawable<E>>,
    style: StyleRefinement,
}

/// Makes a group without children and without style overrides.
pub fn group<E: Element>() -> (g: Group<E>)
    ensures
        g.children() == Seq::<Drawable<E>>::empty(),
        g.refinement() == StyleRefinement::spec_empty(),
        g.awaits_layout(),
{
    Group { children: Vec::new(), style: StyleRefinement::default() }
}

/// Whether `after` is `before` followed by what a group with the style `style` in
/// `bounds` draws around its children's draw commands `parts`: the children's
/// commands one after the other, in the order of the children, inside the
/// style's scoped region, on top of the shadow and the fill, and under the
/// border.
pub open spec fn painted_around(
    before: Seq<Primitive>,
    style: Style,
    bounds: Bounds,
    parts: Seq<Seq<Primitive>>,
    after: Seq<Primitive>,
) -> bool {
    after == before + style.decorated(bounds, parts.flatten())
}

/// Whether `states` are the states that a row of steps hands on from one to the
/// next: the first is `first`, the state before the first step, and the last is
/// `last`, the state after the last step.
pub open spec fn handed_on(
    states: Seq<WindowContext>,
    first: WindowContext,
    last: WindowContext,
) -> bool {
    states.len() > 0 && states.first() == first && states.last() == last
}

/// Whether `after` is `before` with one more layout request registered, the last
/// one: the requests that were there are there still, in their order, no bounds
/// are known, and nothing else has changed.
pub open spec fn registers_last(before: WindowContext, after: WindowContext) -> bool {
    &&& after.app == before.app
    &&& after.window.same_but_layout(&before.window)
    &&& after.window.layout.bounds() is None
    &&& after.window.layout.requests().len() == before.window.layout.requests().len() + 1
    &&& after.window.layout.requests().drop_last() == before.window.layout.requests()
}

impl<E: Element> Group<E> {
    /// The children in their slots, in the order in which they were added.
    pub closed spec fn children(&self) -> Seq<Drawable<E>> {
        self.children@
    }

    /// The style overrides of the group.
    pub closed spec fn refinement(&self) -> StyleRefinement {
        self.style
    }

    /// Whether every child can take the steps that its stage leaves it to take.
    pub open spec fn children_wf(&self) -> bool {
        forall|i: int| 0 <= i < self.children().len() ==> (#[trigger] self.children()[i]).wf()
    }

    /// Whether every child has reached the stage `stage`, and none a later or an
    /// earlier one.
    pub open spec fn children_at(&self, stage: NodeStage) -> bool {
        forall|i: int|
            0 <= i < self.children().len() ==> (#[trigger] self.children()[i]).spec_stage()
                == stage
    }

    /// How the lookup of bounds leaves a child, given the layout engine that is
    /// asked: a child that waits for its bounds has them where the solver's
    /// result is in; every other child is as it was.
    pub open spec fn child_resolved(
        before: Drawable<E>,
        after: Drawable<E>,
        layout: LayoutEngine,
    ) -> bool {
        if before.spec_stage() == NodeStage::LayoutRequested && layout.bounds() is Some {
            &&& after.spec_stage() == NodeStage::BoundsResolved
            &&& after.spec_bounds() == Some(
                layout.spec_layout_bounds(before.spec_layout_id()->0),
            )
            &&& after.spec_id() == before.spec_id()
            &&& after.element() == before.element()
            &&& after.layout_state() == before.layout_state()
        } else {
            after == before
        }
    }

    /// How the group's prepaint step leaves a child, given the layout engine as
    /// it is when the step begins: a child whose bounds were known, or are given
    /// by the engine, has prepainted with them; every other child is as it was.
    pub open spec fn child_prepainted(
        before: Drawable<E>,
        after: Drawable<E>,
        layout: LayoutEngine,
    ) -> bool {
        if before.spec_stage() == NodeStage::BoundsResolved {
            &&& after.spec_stage() == NodeStage::Prepainted
            &&& after.spec_bounds() == before.spec_bounds()
            &&& after.spec_id() == before.spec_id()
        } else if before.spec_stage() == NodeStage::LayoutRequested && layout.bounds() is Some {
            &&& after.spec_stage() == NodeStage::Prepainted
            &&& after.spec_bounds() == Some(
                layout.spec_layout_bounds(before.spec_layout_id()->0),
            )
            &&& after.spec_id() == before.spec_id()
        } else {
            after == before
        }
    }

    /// The group with `element` added as its last child.
    pub fn child(self, element: E) -> (g: Group<E>)
        requires
            element.awaits_layout(),
        ensures
            g.children().len() == self.children().len() + 1,
            g.children().drop_last() == self.children(),
            g.children().last().element() == element,
            g.children().last().spec_stage() == NodeStage::Unregistered,
            g.children().last().wf(),
            g.refinement() == self.refinement(),
            self.awaits_layout() ==> g.awaits_layout(),
    {
        let mut this = self;
        this.children.push(Drawable::new(element));
        assert(this.children@.drop_last() =~= self.children@);
        this
    }

    /// The group with the further overrides `later` laid over its own.
    pub fn refined(self, later: &StyleRefinement) -> (g: Group<E>)
        ensures
            g.children() == self.children(),
            g.refinement() == merge(self.refinement(), *later),
            g.awaits_layout() == self.awaits_layout(),
    {
        let mut this = self;
        this.style.refine(later);
        this
    }

    /// The number of children.
    pub fn child_count(&self) -> (n: usize)
        ensures
            n == self.children().len(),
    {
        self.children.len()
    }

    /// The stage that the child at `index` has reached, or `None` where the
    /// group has no such child.
    pub fn child_stage(&self, index: usize) -> (stage: Option<NodeStage>)
        ensures
            index < self.children().len() ==> stage == Some(
                self.children()[index as int].spec_stage(),
            ),
            index >= self.children().len() ==> stage is None,
    {
        if index < self.children.len() {
            Some(self.children[index].stage())
        } else {
            None
        }
    }
}

impl<E: Element> Element for Group<E> {
    type RequestLayoutState = Style;

    type PrepaintState = ();

    /// A group awaits its layout step while none of its children has requested
    /// layout.
    open spec fn awaits_layout(&self) -> bool {
        self.children_wf() && self.children_at(NodeStage::Unregistered)
    }

    /// A group can prepaint whatever stages its children have reached: a child
    /// that is not ready for a step is passed over.
    open spec fn awaits_prepaint(&self) -> bool {
        self.children_wf()
    }

    /// A group can paint whatever stages its children have reached: a child that
    /// is not ready for a step is passed over.
    open spec fn awaits_paint(&self, prepaint: &()) -> bool {
        self.children_wf()
    }

    /// Has every child request layout, in order, each on the state that the
    /// child before it left, and then registers the group with its effective
    /// style and the handles of its children, in the order of the children.
    /// Nothing is drawn.
    fn request_layout(&mut self, cx: &mut RequestLayoutContext) -> (r: (LayoutId, Style))
        ensures
            final(self).children_wf(),
            final(self).children_at(NodeStage::LayoutRequested),
            final(self).children().len() == old(self).children().len(),
            final(self).refinement() == old(self).refinement(),
            r.1 == cascade(Style::spec_default(), old(self).refinement()),
            final(cx).same_frame_state(old(cx)),
            r.0.0 + 1 == final(cx).state().window.layout.requests().len(),
            final(cx).state().window.layout.requests().last().style == r.1,
            final(cx).state().window.layout.requests().last().children.len()
                == final(self).children().len(),
            forall|i: int|
                #![trigger final(self).children()[i]]
                0 <= i < final(self).children().len()
                    ==> final(self).children()[i].spec_id() == old(self).children()[i].spec_id()
                    && final(self).children()[i].spec_layout_id() == Some(
                    final(cx).state().window.layout.requests().last().children[i],
                ),
            exists|states: Seq<WindowContext>|
                #![trigger registers_last(states.last(), final(cx).state())]
                {
                    &&& states.len() == old(self).children().len() + 1
                    &&& states[0] == old(cx).state()
                    &&& registers_last(states.last(), final(cx).state())
                    &&& forall|i: int|
                        #![trigger old(self).children()[i]]
                        0 <= i < old(self).children().len() ==>
                            exists|e: &mut E, c: &mut ElementContext|
                                {
                                    &&& #[trigger] call_ensures(
                                        E::request_layout,
                                        (e, c),
                                        (
                                            final(self).children()[i].spec_layout_id()->0,
                                            final(self).children()[i].layout_state()->0,
                                        ),
                                    )
                                    &&& *e == old(self).children()[i].element()
                                    &&& *final(e) == final(self).children()[i].element()
                                    &&& c.draw_phase() == DrawPhase::Layout
                                    &&& c.recorded() == Seq::<Primitive>::empty()
                                    &&& c.active_regions() == old(cx).active_regions()
                                    &&& c.state() == states[i]
                                    &&& final(c).state() == states[i + 1]
                                }
                },
    {
        let mut ids: Vec<LayoutId> = Vec::new();
        let ghost mut states: Seq<WindowContext> = seq![cx.state()];
        let mut i: usize = 0;
        while i < self.children.len()
            invariant
                i <= self.children.len(),
                self.children.len() == old(self).children.len(),
                self.style == old(self).style,
                cx.same_frame_state(old(cx)),
                ids.len() == i,
                states.len() == i + 1,
                states[0] == old(cx).state(),
                cx.state() == states[i as int],
                forall|j: int|
                    0 <= j < self.children.len() ==> (#[trigger] self.children@[j]).wf(),
                forall|j: int|
                    0 <= j < i ==> (#[trigger] self.children@[j]).spec_stage()
                        == NodeStage::LayoutRequested,
                forall|j: int|
                    0 <= j < i ==> (#[trigger] self.children@[j]).spec_layout_id() == Some(ids@[j]),
                forall|j: int|
                    0 <= j < i ==> (#[trigger] self.children@[j]).spec_id()
                        == old(self).children@[j].spec_id(),
                forall|j: int|
                    i <= j < self.children.len() ==> (#[trigger] self.children@[j])
                        == old(self).children@[j],
                forall|j: int|
                    #![trigger old(self).children@[j]]
                    i <= j < self.children.len() ==> old(self).children@[j].spec_stage()
                        == NodeStage::Unregistered,
                forall|j: int|
                    #![trigger old(self).children@[j]]
                    0 <= j < i ==>
                        exists|e: &mut E, c: &mut ElementContext|
                            {
                                &&& #[trigger] call_ensures(
                                    E::request_layout,
                                    (e, c),
                                    (
                                        self.children@[j].spec_layout_id()->0,
                                        self.children@[j].layout_state()->0,
                                    ),
                                )
                                &&& *e == old(self).children@[j].element()
                                &&& *final(e) == self.children@[j].element()
                                &&& c.draw_phase() == DrawPhase::Layout
                                &&& c.recorded() == Seq::<Primitive>::empty()
                                &&& c.active_regions() == old(cx).active_regions()
                                &&& c.state() == states[j]
                                &&& final(c).state() == states[j + 1]
                            },
            decreases self.children.len() - i,
        {
            let ghost before = self.children@;
            let ghost cx_before = *cx;
            let ghost states_before = states;
            assert(before[i as int].wf());
            assert(before[i as int] == old(self).children@[i as int]);
            let requested = self.children[i].request_layout(cx);
            assert(forall|j: int|
                0 <= j < self.children.len() && j != i ==> self.children@[j] == before[j]);
            match requested {
                Ok(id) => ids.push(id),
                Err(_) => {},
            }
            proof {
                states = states_before.push(cx.state());
                assert(
                    exists|e: &mut E, c: &mut ElementContext|
                        {
                            &&& #[trigger] call_ensures(
                                E::request_layout,
                                (e, c),
                                (
                                    self.children@[i as int].spec_layout_id()->0,
                                    self.children@[i as int].layout_state()->0,
                                ),
                            )
                            &&& *e == old(self).children@[i as int].element()
                            &&& *final(e) == self.children@[i as int].element()
                            &&& c.draw_phase() == DrawPhase::Layout
                            &&& c.recorded() == Seq::<Primitive>::empty()
                            &&& c.active_regions() == old(cx).active_regions()
                            &&& c.state() == states[i as int]
                            &&& final(c).state() == states[i + 1]
                        }) by {
                    // The call just made is the witness.
                    let (e, c) = choose|e: &mut E, c: &mut ElementContext| #[trigger]
                        call_ensures(
                            E::request_layout,
                            (e, c),
                            (requested->Ok_0, self.children@[i as int].layout_state()->0),
                        ) && *e == before[i as int].element() && *final(e)
                            == self.children@[i as int].element() && c.is_inside(
                            &cx_before,
                            DrawPhase::Layout,
                            None,
                        ) && final(c).state() == cx.state();
                    assert(call_ensures(
                        E::request_layout,
                        (e, c),
                        (
                            self.children@[i as int].spec_layout_id()->0,
                            self.children@[i as int].layout_state()->0,
                        ),
                    ));
                    assert(*e == old(self).children@[i as int].element());
                    assert(c.active_regions() == old(cx).active_regions());
                    assert(c.state() == states[i as int]);
                    assert(final(c).state() == states[i + 1]);
                }
                assert forall|j: int| 0 <= j < i implies states[j] == states_before[j]
                    && #[trigger] states[j + 1] == states_before[j + 1] by {}
            }
            i = i + 1;
        }
        let mut style = Style::default();
        style.refine(&self.style);
        let ghost last = cx.state();
        let layout_id = cx.request_layout(&style, ids);
        proof {
            assert(cx.state().window.layout.requests().drop_last()
                =~= last.window.layout.requests());
            assert(registers_last(states.last(), cx.state()));
        }
        (layout_id, style)
    }

    /// Has every child look up its bounds, and then has every child prepaint, in
    /// order.
    ///
    /// A child that waits for its bounds gets them where the solver's result is
    /// in, and prepaints with them. A child whose bounds were known prepaints
    /// with those. Every other child is passed over and stays as it is: one
    /// that has not requested layout, one that has prepainted already, and one
    /// that waits for bounds that the solver has not given. Nothing is drawn.
    fn prepaint(
        &mut self,
        bounds: Bounds,
        request_layout: &mut Style,
        cx: &mut PrepaintContext,
    ) -> (p: ())
        ensures
            final(self).children_wf(),
            final(self).children().len() == old(self).children().len(),
            final(self).refinement() == old(self).refinement(),
            *final(request_layout) == *old(request_layout),
            final(cx).same_frame_state(old(cx)),
            forall|i: int|
                #![trigger final(self).children()[i]]
                0 <= i < old(self).children().len() ==> Self::child_prepainted(
                    old(self).children()[i],
                    final(self).children()[i],
                    old(cx).state().window.layout,
                ),
            exists|states: Seq<WindowContext>|
                #![trigger handed_on(states, old(cx).state(), final(cx).state())]
                {
                    &&& states.len() == old(self).children().len() + 1
                    &&& handed_on(states, old(cx).state(), final(cx).state())
                    &&& forall|i: int|
                        #![trigger old(self).children()[i]]
                        0 <= i < old(self).children().len() ==> if old(self).children()[i].spec_stage()
                            != NodeStage::Prepainted && final(self).children()[i].spec_stage()
                            == NodeStage::Prepainted {
                            exists|
                                e: &mut E,
                                st: &mut E::RequestLayoutState,
                                c: &mut ElementContext,
                            |
                                {
                                    &&& #[trigger] call_ensures(
                                        E::prepaint,
                                        (e, final(self).children()[i].spec_bounds()->0, st, c),
                                        final(self).children()[i].payload()->0,
                                    )
                                    &&& *e == old(self).children()[i].element()
                                    &&& *final(e) == final(self).children()[i].element()
                                    &&& Some(*st) == old(self).children()[i].layout_state()
                                    &&& Some(*final(st)) == final(self).children()[i].layout_state()
                                    &&& c.draw_phase() == DrawPhase::Prepaint
                                    &&& c.recorded() == Seq::<Primitive>::empty()
                                    &&& c.active_regions() == old(cx).active_regions()
                                    &&& c.state() == states[i]
                                    &&& final(c).state() == states[i + 1]
                                }
                        } else {
                            states[i + 1] == states[i]
                        }
                },
    {
        assert forall|j: int|
            #![trigger self.children@[j]]
            0 <= j < self.children.len() implies self.children@[j].wf() by {
            assert(self.children()[j].wf());
        }
        let ghost layout = cx.state().window.layout;
        // First every child that waits for its bounds looks them up: the
        // bounds of the whole tree are read before any child's own code runs.
        let mut i: usize = 0;
        while i < self.children.len()
            invariant
                i <= self.children.len(),
                self.children.len() == old(self).children.len(),
                self.style == old(self).style,
                *cx == *old(cx),
                layout == old(cx).state().window.layout,
                forall|j: int|
                    0 <= j < self.children.len() ==> (#[trigger] self.children@[j]).wf(),
                forall|j: int|
                    0 <= j < i ==> Self::child_resolved(
                        old(self).children@[j],
                        #[trigger] self.children@[j],
                        layout,
                    ),
                forall|j: int|
                    i <= j < self.children.len() ==> (#[trigger] self.children@[j])
                        == old(self).children@[j],
            decreases self.children.len() - i,
        {
            let ghost before = self.children@;
            assert(before[i as int].wf());
            let _ = self.children[i].resolve_bounds(cx);
            assert(forall|j: int|
                0 <= j < self.children.len() && j != i ==> self.children@[j] == before[j]);
            i = i + 1;
        }
        let ghost resolved = self.children@;
        let ghost mut states: Seq<WindowContext> = seq![cx.state()];
        // Then every child whose bounds are known prepaints.
        let mut i: usize = 0;
        while i < self.children.len()
            invariant
                i <= self.children.len(),
                self.children.len() == old(self).children.len(),
                resolved.len() == self.children.len(),
                self.style == old(self).style,
                cx.same_frame_state(old(cx)),
                states.len() == i + 1,
                states[0] == old(cx).state(),
                cx.state() == states[i as int],
                forall|j: int|
                    0 <= j < self.children.len() ==> (#[trigger] self.children@[j]).wf(),
                forall|j: int|
                    0 <= j < resolved.len() ==> Self::child_resolved(
                        old(self).children@[j],
                        #[trigger] resolved[j],
                        layout,
                    ),
                forall|j: int|
                    0 <= j < i ==> Self::child_prepainted(
                        old(self).children@[j],
                        #[trigger] self.children@[j],
                        layout,
                    ),
                forall|j: int|
                    i <= j < self.children.len() ==> (#[trigger] self.children@[j])
                        == resolved[j],
                forall|j: int|
                    #![trigger old(self).children@[j]]
                    0 <= j < i && !(old(self).children@[j].spec_stage() != NodeStage::Prepainted
                        && self.children@[j].spec_stage() == NodeStage::Prepainted) ==> states[j
                        + 1] == states[j],
                forall|j: int|
                    #![trigger old(self).children@[j]]
                    0 <= j < i && old(self).children@[j].spec_stage() != NodeStage::Prepainted
                        && self.children@[j].spec_stage() == NodeStage::Prepainted ==> exists|
                        e: &mut E,
                        st: &mut E::RequestLayoutState,
                        c: &mut ElementContext,
                    |
                        {
                            &&& #[trigger] call_ensures(
                                E::prepaint,
                                (e, self.children@[j].spec_bounds()->0, st, c),
                                self.children@[j].payload()->0,
                            )
                            &&& *e == old(self).children@[j].element()
                            &&& *final(e) == self.children@[j].element()
                            &&& Some(*st) == old(self).children@[j].layout_state()
                            &&& Some(*final(st)) == self.children@[j].layout_state()
                            &&& c.draw_phase() == DrawPhase::Prepaint
                            &&& c.recorded() == Seq::<Primitive>::empty()
                            &&& c.active_regions() == old(cx).active_regions()
                            &&& c.state() == states[j]
                            &&& final(c).state() == states[j + 1]
                        },
            decreases self.children.len() - i,
        {
            let ghost before = self.children@;
            let ghost cx_before = *cx;
            let ghost states_before = states;
            assert(before[i as int].wf());
            assert(Self::child_resolved(
                old(self).children@[i as int],
                resolved[i as int],
                layout,
            ));
            let _ = self.children[i].prepaint(cx);
            assert(forall|j: int|
                0 <= j < self.children.len() && j != i ==> self.children@[j] == before[j]);
            proof {
                states = states_before.push(cx.state());
                if before[i as int].spec_stage() == NodeStage::BoundsResolved {
                    assert(exists|
                        e: &mut E,
                        st: &mut E::RequestLayoutState,
                        c: &mut ElementContext,
                    |
                        {
                            &&& #[trigger] call_ensures(
                                E::prepaint,
                                (e, self.children@[i as int].spec_bounds()->0, st, c),
                                self.children@[i as int].payload()->0,
                            )
                            &&& *e == old(self).children@[i as int].element()
                            &&& *final(e) == self.children@[i as int].element()
                            &&& Some(*st) == old(self).children@[i as int].layout_state()
                            &&& Some(*final(st)) == self.children@[i as int].layout_state()
                            &&& c.draw_phase() == DrawPhase::Prepaint
                            &&& c.recorded() == Seq::<Primitive>::empty()
                            &&& c.active_regions() == old(cx).active_regions()
                            &&& c.state() == states[i as int]
                            &&& final(c).state() == states[i + 1]
                        }) by {
                        // The call just made is the witness.
                        let (e, st, c) = choose|
                            e: &mut E,
                            st: &mut E::RequestLayoutState,
                            c: &mut ElementContext,
                        | #[trigger]
                            call_ensures(
                                E::prepaint,
                                (e, before[i as int].spec_bounds()->0, st, c),
                                self.children@[i as int].payload()->0,
                            ) && *e == before[i as int].element() && *final(e)
                                == self.children@[i as int].element() && Some(*st)
                                == before[i as int].layout_state() && Some(*final(st))
                                == self.children@[i as int].layout_state() && c.is_inside(
                                &cx_before,
                                DrawPhase::Prepaint,
                                None,
                            ) && final(c).state() == cx.state();
                        assert(call_ensures(
                            E::prepaint,
                            (e, self.children@[i as int].spec_bounds()->0, st, c),
                            self.children@[i as int].payload()->0,
                        ));
                        assert(*e == old(self).children@[i as int].element());
                        assert(Some(*st) == old(self).children@[i as int].layout_state());
                        assert(c.active_regions() == old(cx).active_regions());
                        assert(c.state() == states[i as int]);
                        assert(final(c).state() == states[i + 1]);
                    }
                }
                assert forall|j: int|
                    #![trigger old(self).children@[j]]
                    0 <= j < i + 1 && !(old(self).children@[j].spec_stage()
                        != NodeStage::Prepainted && self.children@[j].spec_stage()
                        == NodeStage::Prepainted) implies states[j + 1] == states[j] by {
                    if j < i {
                        assert(states[j] == states_before[j]);
                        assert(states[j + 1] == states_before[j + 1]);
                        assert(self.children@[j] == before[j]);
                    }
                }
                assert forall|j: int| 0 <= j < i implies states[j] == states_before[j]
                    && #[trigger] states[j + 1] == states_before[j + 1] by {}
            }
            i = i + 1;
        }
        proof {
            assert(handed_on(states, old(cx).state(), cx.state()));
        }
    }

    /// Paints the group in its effective style: the shadow and the fill, then
    /// the children in order, inside the style's scoped region, then the border.
    ///
    /// Every child that has prepainted paints, once, in a scope of its own, on
    /// the state that the child before it left. What the children record is put
    /// one after the other, in the order of the children, between the group's
    /// own decorations. A child that has not prepainted, or has painted already,
    /// is passed over: it stays as it is and adds nothing. What each child
    /// records is balanced, and the region around all of it is closed whatever
    /// the children do.
    fn paint(
        &mut self,
        bounds: Bounds,
        style: &mut Style,
        prepaint: &mut (),
        cx: &mut PaintContext,
    )
        ensures
            final(self).children_wf(),
            final(self).children().len() == old(self).children().len(),
            final(self).refinement() == old(self).refinement(),
            *final(style) == *old(style),
            forall|i: int|
                #![trigger old(self).children()[i]]
                0 <= i < old(self).children().len() ==> final(self).children()[i].spec_id()
                    == old(self).children()[i].spec_id() && (old(self).children()[i].spec_stage()
                    == NodeStage::Prepainted ==> final(self).children()[i].spec_stage()
                    == NodeStage::Painted),
            exists|parts: Seq<Seq<Primitive>>, states: Seq<WindowContext>|
                #![trigger
                    painted_around(
                        old(cx).recorded(),
                        *old(style),
                        bounds,
                        parts,
                        final(cx).recorded(),
                    ),
                    handed_on(states, old(cx).state(), final(cx).state()),
                ]
                {
                    &&& parts.len() == old(self).children().len()
                    &&& states.len() == parts.len() + 1
                    &&& handed_on(states, old(cx).state(), final(cx).state())
                    &&& painted_around(
                        old(cx).recorded(),
                        *old(style),
                        bounds,
                        parts,
                        final(cx).recorded(),
                    )
                    &&& forall|i: int|
                        #![trigger old(self).children()[i]]
                        0 <= i < parts.len() ==> balanced(parts[i]) && (
                        if old(self).children()[i].spec_stage() == NodeStage::Prepainted {
                            exists|
                                e: &mut E,
                                st: &mut E::RequestLayoutState,
                                p: &mut E::PrepaintState,
                                c: &mut ElementContext,
                            |
                                {
                                    &&& #[trigger] call_ensures(
                                        E::paint,
                                        (e, old(self).children()[i].spec_bounds()->0, st, p, c),
                                        (),
                                    )
                                    &&& *e == old(self).children()[i].element()
                                    &&& *final(e) == final(self).children()[i].element()
                                    &&& Some(*st) == old(self).children()[i].layout_state()
                                    &&& Some(*p) == old(self).children()[i].payload()
                                    &&& c.draw_phase() == DrawPhase::Paint
                                    &&& c.recorded() == Seq::<Primitive>::empty()
                                    &&& c.active_regions() == regions_inside(
                                        old(cx).active_regions(),
                                        old(style).spec_region_at(bounds),
                                    )
                                    &&& c.state() == states[i]
                                    &&& final(c).recorded() == parts[i]
                                    &&& final(c).state() == states[i + 1]
                                }
                        } else {
                            &&& parts[i] == Seq::<Primitive>::empty()
                            &&& states[i + 1] == states[i]
                            &&& final(self).children()[i] == old(self).children()[i]
                        }
                        )
                },
            final(cx).active_regions() == old(cx).active_regions(),
            final(cx).draw_phase() == old(cx).draw_phase(),
    {
        style.paint_under(bounds, cx);
        let region = style.region_at(bounds);
        let saved = cx.open_scope(DrawPhase::Paint, region);
        let ghost inside = *cx;
        let ghost mut parts: Seq<Seq<Primitive>> = Seq::empty();
        let ghost mut states: Seq<WindowContext> = seq![cx.state()];
        proof {
            lemma_balanced_empty();
        }
        let mut i: usize = 0;
        while i < self.children.len()
            invariant
                i <= self.children.len(),
                self.children.len() == old(self).children.len(),
                self.style == old(self).style,
                *style == *old(style),
                region == old(style).spec_region_at(bounds),
                forall|j: int|
                    0 <= j < self.children.len() ==> (#[trigger] self.children@[j]).wf(),
                cx.active_regions() == inside.active_regions(),
                inside.active_regions() == regions_inside(old(cx).active_regions(), region),
                cx.draw_phase() == DrawPhase::Paint,
                parts.len() == i,
                states.len() == i + 1,
                states[0] == old(cx).state(),
                cx.state() == states[i as int],
                cx.recorded() == parts.flatten(),
                balanced(parts.flatten()),
                forall|j: int|
                    #![trigger old(self).children@[j]]
                    0 <= j < i ==> self.children@[j].spec_id() == old(self).children@[j].spec_id()
                        && (old(self).children@[j].spec_stage() == NodeStage::Prepainted
                        ==> self.children@[j].spec_stage() == NodeStage::Painted),
                forall|j: int|
                    i <= j < self.children.len() ==> (#[trigger] self.children@[j])
                        == old(self).children@[j],
                forall|j: int| 0 <= j < i ==> balanced(#[trigger] parts[j]),
                forall|j: int|
                    #![trigger old(self).children@[j]]
                    0 <= j < i && old(self).children@[j].spec_stage() != NodeStage::Prepainted ==> {
                        &&& parts[j] == Seq::<Primitive>::empty()
                        &&& states[j + 1] == states[j]
                        &&& self.children@[j] == old(self).children@[j]
                    },
                forall|j: int|
                    #![trigger old(self).children@[j]]
                    0 <= j < i && old(self).children@[j].spec_stage() == NodeStage::Prepainted ==>
                        exists|
                            e: &mut E,
                            st: &mut E::RequestLayoutState,
                            p: &mut E::PrepaintState,
                            c: &mut ElementContext,
                        |
                            {
                                &&& #[trigger] call_ensures(
                                    E::paint,
                                    (e, old(self).children@[j].spec_bounds()->0, st, p, c),
                                    (),
                                )
                                &&& *e == old(self).children@[j].element()
                                &&& *final(e) == self.children@[j].element()
                                &&& Some(*st) == old(self).children@[j].layout_state()
                                &&& Some(*p) == old(self).children@[j].payload()
                                &&& c.draw_phase() == DrawPhase::Paint
                                &&& c.recorded() == Seq::<Primitive>::empty()
                                &&& c.active_regions() == regions_inside(
                                    old(cx).active_regions(),
                                    region,
                                )
                                &&& c.state() == states[j]
                                &&& final(c).recorded() == parts[j]
                                &&& final(c).state() == states[j + 1]
                            },
            decreases self.children.len() - i,
        {
            let ghost before = self.children@;
            let ghost cx_before = *cx;
            let ghost parts_before = parts;
            let ghost states_before = states;
            assert(before[i as int].wf());
            assert(before[i as int] == old(self).children@[i as int]);
            let _ = self.children[i].paint(cx);
            assert(forall|j: int|
                0 <= j < self.children.len() && j != i ==> self.children@[j] == before[j]);
            proof {
                // What this child recorded is what follows what was recorded
                // before it.
                let part = cx.recorded().skip(cx_before.recorded().len() as int);
                parts = parts_before.push(part);
                states = states_before.push(cx.state());
                if before[i as int].spec_stage() == NodeStage::Prepainted {
                    assert(exists|
                        e: &mut E,
                        st: &mut E::RequestLayoutState,
                        p: &mut E::PrepaintState,
                        c: &mut ElementContext,
                    |
                        {
                            &&& #[trigger] call_ensures(
                                E::paint,
                                (e, old(self).children@[i as int].spec_bounds()->0, st, p, c),
                                (),
                            )
                            &&& *e == old(self).children@[i as int].element()
                            &&& *final(e) == self.children@[i as int].element()
                            &&& Some(*st) == old(self).children@[i as int].layout_state()
                            &&& Some(*p) == old(self).children@[i as int].payload()
                            &&& c.draw_phase() == DrawPhase::Paint
                            &&& c.recorded() == Seq::<Primitive>::empty()
                            &&& c.active_regions() == regions_inside(
                                old(cx).active_regions(),
                                region,
                            )
                            &&& c.state() == states[i as int]
                            &&& final(c).recorded() == parts[i as int]
                            &&& final(c).state() == states[i + 1]
                        }) by {
                        // The call just made is the witness.
                        let (e, st, p, c) = choose|
                            e: &mut E,
                            st: &mut E::RequestLayoutState,
                            p: &mut E::PrepaintState,
                            c: &mut ElementContext,
                        | #[trigger]
                            call_ensures(
                                E::paint,
                                (e, before[i as int].spec_bounds()->0, st, p, c),
                                (),
                            ) && *e == before[i as int].element() && *final(e)
                                == self.children@[i as int].element() && Some(*st)
                                == before[i as int].layout_state() && Some(*p)
                                == before[i as int].payload() && c.is_inside(
                                &cx_before,
                                DrawPhase::Paint,
                                None,
                            ) && balanced(final(c).recorded()) && cx.recorded()
                                == cx_before.recorded() + final(c).recorded() && cx.state()
                                == final(c).state();
                        assert(final(c).recorded() =~= part);
                        assert(c.state() == states[i as int]);
                        assert(final(c).state() == states[i + 1]);
                        assert(parts[i as int] == part);
                        assert(call_ensures(
                            E::paint,
                            (e, old(self).children@[i as int].spec_bounds()->0, st, p, c),
                            (),
                        ));
                        assert(c.active_regions() == regions_inside(
                            old(cx).active_regions(),
                            region,
                        ));
                    }
                    assert(balanced(part)) by {
                        let (e, st, p, c) = choose|
                            e: &mut E,
                            st: &mut E::RequestLayoutState,
                            p: &mut E::PrepaintState,
                            c: &mut ElementContext,
                        | #[trigger]
                            call_ensures(
                                E::paint,
                                (e, before[i as int].spec_bounds()->0, st, p, c),
                                (),
                            ) && balanced(final(c).recorded()) && cx.recorded()
                                == cx_before.recorded() + final(c).recorded();
                        assert(final(c).recorded() =~= part);
                    }
                } else {
                    assert(part =~= Seq::<Primitive>::empty());
                }
                parts_before.lemma_flatten_push(part);
                assert(cx.recorded() =~= parts.flatten());
                lemma_balanced_concat(parts_before.flatten(), part);
                assert forall|j: int|
                    #![trigger old(self).children@[j]]
                    0 <= j < i + 1 && old(self).children@[j].spec_stage()
                        != NodeStage::Prepainted implies {
                    &&& parts[j] == Seq::<Primitive>::empty()
                    &&& states[j + 1] == states[j]
                    &&& self.children@[j] == old(self).children@[j]
                } by {
                    if j < i {
                        assert(parts[j] == parts_before[j]);
                        assert(states[j] == states_before[j]);
                        assert(states[j + 1] == states_before[j + 1]);
                        assert(self.children@[j] == before[j]);
                        assert(parts_before[j] == Seq::<Primitive>::empty());
                        assert(states_before[j + 1] == states_before[j]);
                        assert(before[j] == old(self).children@[j]);
                    } else {
                        assert(j == i);
                        assert(parts[j] == Seq::<Primitive>::empty());
                        assert(states[j + 1] == cx.state());
                        assert(states[j] == cx_before.state());
                        assert(cx.state() == cx_before.state());
                        assert(self.children@[j] == old(self).children@[j]);
                    }
                }
            }
            i = i + 1;
        }
        let ghost content = cx.recorded();
        cx.close_scope(saved, region);
        style.paint_over(bounds, cx);
        assert(cx.recorded() =~= old(cx).recorded() + style.decorated(bounds, parts.flatten()));
        assert(painted_around(old(cx).recorded(), *old(style), bounds, parts, cx.recorded()));
        assert(handed_on(states, old(cx).state(), cx.state()));
    }
}

impl<E: Element> IntoElement for Group<E> {
    type Element = Self;

    /// A group turns into itself.
    open spec fn turns_into(&self, element: &Self) -> bool {
        *element == *self
    }

    /// The group itself: it is a node already.
    fn into_element(self) -> (element: Self) {
        self
    }
}

impl<E: Element> Styled for Group<E> {
    open spec fn overrides(&self) -> StyleRefinement {
        self.refinement()
    }

    /// The style overrides of the group, for changing in place. The children
    /// stay as they are.
    fn style(&mut self) -> (s: &mut StyleRefinement)
        ensures
            *s == old(self).refinement(),
            final(self).refinement() == *final(s),
            final(self).children() == old(self).children(),
            final(self).awaits_layout() == old(self).awaits_layout(),
            final(self).awaits_prepaint() == old(self).awaits_prepaint(),
    {
        &mut self.style
    }
}

} // verus!
