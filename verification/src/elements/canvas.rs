//! The canvas: a node made of two callbacks, for drawing without defining a node
//! type.
//!
//! A canvas holds a prepaint callback, a paint callback and a record of style
//! overrides. Each callback is single-use: the step that it serves takes it out of
//! the canvas, calls it once and drops it.

use vstd::prelude::*;
use core::marker::PhantomData;
use crate::element::{Element, IntoElement};
use crate::geometry::{Bounds, Pixels, Size};
use crate::scene::balanced;
use crate::style::{cascade, BoxShadow, Rgba, Style, StyleRefinement, Styled};
use crate::window::element_cx::{
    DrawPhase,
    ElementContext,
    PaintContext,
    PrepaintContext,
    RequestLayoutContext,
};
use crate::window::{LayoutId, LayoutRequest};

verus! {

/// Whether the prepaint callback `f` accepts every call that the prepaint step
/// can make: any bounds, and any context that serves the prepaint step.
pub open spec fn prepaint_callable<T, P: FnOnce(Bounds, &mut PrepaintContext) -> T>(f: P) -> bool {
    forall|bounds: Bounds, c: &mut PrepaintContext|
        c.draw_phase() == DrawPhase::Prepaint ==> #[trigger] f.requires((bounds, c))
}

/// Whether the paint callback `g` accepts the payload `payload`, with any bounds
/// and in any context that serves the paint step.
pub open spec fn accepts_payload<T, Q: FnOnce(Bounds, T, &mut PaintContext)>(
    g: Q,
    payload: T,
) -> bool {
    forall|bounds: Bounds, c: &mut PaintContext|
        c.draw_phase() == DrawPhase::Paint ==> #[trigger] g.requires((bounds, payload, c))
}

/// Whether the paint callback `g` accepts every call that the paint step can
/// make after the prepaint callback `f`: every payload that `f` can return from
/// a call that the prepaint step can make.
pub open spec fn paint_callable<T, P, Q>(f: P, g: Q) -> bool where
    P: FnOnce(Bounds, &mut PrepaintContext) -> T,
    Q: FnOnce(Bounds, T, &mut PaintContext),
 {
    forall|bounds: Bounds, c: &mut PrepaintContext, payload: T|
        c.draw_phase() == DrawPhase::Prepaint && #[trigger] f.ensures((bounds, c), payload)
            ==> accepts_payload(g, payload)
}

/// A node that draws with callbacks.
#[verifier::reject_recursive_types(T)]
pub struct Canvas<T, P, Q> where
    P: FnOnce(Bounds, &mut PrepaintContext) -> T,
    Q: FnOnce(Bounds, T, &mut PaintContext),
 {
    prepaint: Option<P>,
    paint: Option<Q>,
    style: StyleRefinement,
    payload: PhantomData<T>,
}

/// Makes a canvas from its two callbacks, with no style overrides.
///
/// `prepaint` is called once the bounds of the canvas are known, and what it
/// returns is handed to `paint`.
pub fn canvas<T, P, Q>(prepaint: P, paint: Q) -> (c: Canvas<T, P, Q>) where
    P: FnOnce(Bounds, &mut PrepaintContext) -> T,
    Q: FnOnce(Bounds, T, &mut PaintContext),

    ensures
        c.prepaint_callback() == Some(prepaint),
        c.paint_callback() == Some(paint),
        c.refinement() == StyleRefinement::spec_empty(),
        prepaint_callable(prepaint) && paint_callable(prepaint, paint) ==> c.awaits_layout(),
{
    Canvas {
        prepaint: Some(prepaint),
        paint: Some(paint),
        style: StyleRefinement::default(),
        payload: PhantomData,
    }
}

impl<T, P, Q> Canvas<T, P, Q> where
    P: FnOnce(Bounds, &mut PrepaintContext) -> T,
    Q: FnOnce(Bounds, T, &mut PaintContext),
 {
    /// The prepaint callback, until the prepaint step has taken it.
    pub closed spec fn prepaint_callback(&self) -> Option<P> {
        self.prepaint
    }

    /// The paint callback, until the paint step has taken it.
    pub closed spec fn paint_callback(&self) -> Option<Q> {
        self.paint
    }

    /// The style overrides of the canvas.
    pub closed spec fn refinement(&self) -> StyleRefinement {
        self.style
    }

    /// A canvas awaits its layout step, and its prepaint step, exactly while it
    /// holds both callbacks, each of which accepts every call that its step can
    /// make. It awaits its paint step exactly while it holds its paint callback
    /// and is handed a payload that the callback accepts.
    pub proof fn lemma_readiness(&self, payload: &Option<T>)
        ensures
            self.awaits_layout() <==> {
                &&& self.prepaint_callback() matches Some(f) && prepaint_callable(f)
                &&& self.paint_callback() matches Some(g) && paint_callable(
                    self.prepaint_callback()->0,
                    g,
                )
            },
            self.awaits_prepaint() <==> self.awaits_layout(),
            self.awaits_paint(payload) <==> {
                &&& self.paint_callback() matches Some(g)
                &&& *payload matches Some(t)
                &&& accepts_payload(g, t)
            },
    {
    }
}

impl<T, P, Q> Element for Canvas<T, P, Q> where
    P: FnOnce(Bounds, &mut PrepaintContext) -> T,
    Q: FnOnce(Bounds, T, &mut PaintContext),
 {
    type RequestLayoutState = Style;

    type PrepaintState = Option<T>;

    /// A canvas awaits its layout step while it holds both callbacks.
    open spec fn awaits_layout(&self) -> bool {
        &&& self.prepaint_callback() matches Some(f) && prepaint_callable(f)
        &&& self.paint_callback() matches Some(g) && paint_callable(
            self.prepaint_callback()->0,
            g,
        )
    }

    /// A canvas awaits its prepaint step while it holds both callbacks.
    open spec fn awaits_prepaint(&self) -> bool {
        &&& self.prepaint_callback() matches Some(f) && prepaint_callable(f)
        &&& self.paint_callback() matches Some(g) && paint_callable(
            self.prepaint_callback()->0,
            g,
        )
    }

    /// A canvas awaits its paint step while it holds its paint callback, with a
    /// payload that the callback accepts.
    open spec fn awaits_paint(&self, prepaint: &Option<T>) -> bool {
        &&& self.paint_callback() matches Some(g)
        &&& *prepaint matches Some(t)
        &&& accepts_payload(g, t)
    }

    /// Lays the style overrides of the canvas over the default style and
    /// registers the canvas, as a node without children, with the effective
    /// style as the hint for its size. The effective style is carried forward.
    fn request_layout(&mut self, cx: &mut RequestLayoutContext) -> (r: (LayoutId, Style))
        ensures
            *final(self) == *old(self),
            r.1 == cascade(Style::spec_default(), old(self).refinement()),
            r.0.0 == old(cx).state().window.layout.requests().len(),
            final(cx).state().window.layout.requests()
                == old(cx).state().window.layout.requests().push(
                LayoutRequest { style: r.1, children: Seq::<LayoutId>::empty() },
            ),
            final(cx).state().window.layout.bounds() is None,
            final(cx).state().window.same_but_layout(&old(cx).state().window),
            final(cx).state().app == old(cx).state().app,
            final(cx).same_frame_state(old(cx)),
    {
        let mut style = Style::default();
        style.refine(&self.style);
        let layout_id = cx.request_layout(&style, Vec::new());
        (layout_id, style)
    }

    /// Takes the prepaint callback out of the canvas, calls it once with the
    /// bounds, and returns what it returned, for the paint step.
    fn prepaint(
        &mut self,
        bounds: Bounds,
        _request_layout: &mut Style,
        cx: &mut PrepaintContext,
    ) -> (p: Option<T>)
        ensures
            final(self).prepaint_callback() is None,
            final(self).paint_callback() == old(self).paint_callback(),
            final(self).refinement() == old(self).refinement(),
            *final(_request_layout) == *old(_request_layout),
            p is Some,
            exists|c: &mut PrepaintContext|
                {
                    &&& #[trigger] call_ensures(old(self).prepaint_callback()->0, (bounds, c), p->0)
                    &&& *c == *old(cx)
                    &&& *final(c) == *final(cx)
                },
    {
        let callback = self.prepaint.take().unwrap();
        let ghost before = *cx;
        let payload = callback(bounds, cx);
        let p = Some(payload);
        proof {
            // The call just made is the witness of the contract's last clause.
            let made = choose|c: &mut PrepaintContext| #[trigger]
                call_ensures(callback, (bounds, c), payload) && *c == before && *final(c) == *cx;
            assert(call_ensures(old(self).prepaint_callback()->0, (bounds, made), p->0));
            assert(*made == *old(cx));
        }
        p
    }

    /// Takes the payload and the paint callback, and paints the canvas in its
    /// effective style: the callback is called once, with the bounds and the
    /// payload, inside the style's scoped region and between the style's
    /// decorations.
    fn paint(
        &mut self,
        bounds: Bounds,
        style: &mut Style,
        prepaint: &mut Option<T>,
        cx: &mut PaintContext,
    )
        ensures
            final(self).paint_callback() is None,
            final(self).prepaint_callback() == old(self).prepaint_callback(),
            final(self).refinement() == old(self).refinement(),
            *final(style) == *old(style),
            *final(prepaint) is None,
            exists|c: &mut PaintContext|
                {
                    &&& #[trigger] call_ensures(
                        old(self).paint_callback()->0,
                        (bounds, old(prepaint)->0, c),
                        (),
                    )
                    &&& c.is_inside(old(cx), DrawPhase::Paint, old(style).spec_region_at(bounds))
                    &&& final(cx).recorded() == old(cx).recorded() + old(style).decorated(
                        bounds,
                        final(c).recorded(),
                    )
                    &&& balanced(final(c).recorded())
                    &&& final(cx).state() == final(c).state()
                },
            final(cx).active_regions() == old(cx).active_regions(),
            final(cx).draw_phase() == old(cx).draw_phase(),
    {
        let payload = prepaint.take().unwrap();
        let callback = self.paint.take().unwrap();
        let content = move |cx: &mut PaintContext|
            requires
                cx.draw_phase() == DrawPhase::Paint,
            ensures
                exists|inner: &mut PaintContext| #[trigger]
                    call_ensures(callback, (bounds, payload, inner), ()) && *inner == *old(cx)
                        && *final(inner) == *final(cx),
            {
                callback(bounds, payload, cx)
            };
        style.paint(bounds, cx, content);
    }
}

impl<T, P, Q> IntoElement for Canvas<T, P, Q> where
    P: FnOnce(Bounds, &mut PrepaintContext) -> T,
    Q: FnOnce(Bounds, T, &mut PaintContext),
 {
    type Element = Self;

    /// A canvas turns into itself.
    open spec fn turns_into(&self, element: &Self) -> bool {
        *element == *self
    }

    /// The canvas itself: it is a node already.
    fn into_element(self) -> (element: Self) {
        self
    }
}

impl<T, P, Q> Styled for Canvas<T, P, Q> where
    P: FnOnce(Bounds, &mut PrepaintContext) -> T,
    Q: FnOnce(Bounds, T, &mut PaintContext),
 {
    open spec fn overrides(&self) -> StyleRefinement {
        self.refinement()
    }

    /// The style overrides of the canvas, for changing in place. The callbacks
    /// of the canvas stay as they are.
    fn style(&mut self) -> (s: &mut StyleRefinement)
        ensures
            *s == old(self).refinement(),
            final(self).refinement() == *final(s),
            final(self).prepaint_callback() == old(self).prepaint_callback(),
            final(self).paint_callback() == old(self).paint_callback(),
            final(self).awaits_layout() == old(self).awaits_layout(),
            final(self).awaits_prepaint() == old(self).awaits_prepaint(),
    {
        &mut self.style
    }
}

impl<T, P, Q> Canvas<T, P, Q> where
    P: FnOnce(Bounds, &mut PrepaintContext) -> T,
    Q: FnOnce(Bounds, T, &mut PaintContext),
 {
    /// Whether `other` is this canvas with the style overrides `style`: the
    /// same callbacks, as ready as they were.
    pub open spec fn restyled(&self, other: &Self, style: StyleRefinement) -> bool {
        &&& other.prepaint_callback() == self.prepaint_callback()
        &&& other.paint_callback() == self.paint_callback()
        &&& other.refinement() == style
        &&& other.awaits_layout() == self.awaits_layout()
    }

    /// The canvas with the further overrides `later` laid over its own.
    pub fn refined(self, later: &StyleRefinement) -> (r: Self)
        ensures
            self.restyled(&r, crate::style::merge(self.refinement(), *later)),
    {
        let mut this = self;
        this.style.refine(later);
        this
    }

    /// The canvas with the fill `color`.
    pub fn bg(self, color: Rgba) -> (r: Self)
        ensures
            self.restyled(&r, StyleRefinement { background: Some(color), ..self.refinement() }),
    {
        let mut this = self;
        this.style.background = Some(color);
        this
    }

    /// The canvas with a border of the given width and colour.
    pub fn border(self, width: Pixels, color: Rgba) -> (r: Self)
        ensures
            self.restyled(
                &r,
                StyleRefinement {
                    border_width: Some(width),
                    border_color: Some(color),
                    ..self.refinement()
                },
            ),
    {
        let mut this = self;
        this.style.border_width = Some(width);
        this.style.border_color = Some(color);
        this
    }

    /// The canvas with corners of the given radius.
    pub fn rounded(self, radius: Pixels) -> (r: Self)
        ensures
            self.restyled(&r, StyleRefinement { corner_radius: Some(radius), ..self.refinement() }),
    {
        let mut this = self;
        this.style.corner_radius = Some(radius);
        this
    }

    /// The canvas with the shadow `shadow`.
    pub fn shadow(self, shadow: BoxShadow) -> (r: Self)
        ensures
            self.restyled(&r, StyleRefinement { shadow: Some(shadow), ..self.refinement() }),
    {
        let mut this = self;
        this.style.shadow = Some(shadow);
        this
    }

    /// The canvas with the least size `size`.
    pub fn min_size(self, size: Size) -> (r: Self)
        ensures
            self.restyled(&r, StyleRefinement { min_size: Some(size), ..self.refinement() }),
    {
        let mut this = self;
        this.style.min_size = Some(size);
        this
    }

    /// The canvas with the greatest size `size`.
    pub fn max_size(self, size: Size) -> (r: Self)
        ensures
            self.restyled(&r, StyleRefinement { max_size: Some(size), ..self.refinement() }),
    {
        let mut this = self;
        this.style.max_size = Some(size);
        this
    }

    /// The canvas with its content clipped to its bounds.
    pub fn clipped(self) -> (r: Self)
        ensures
            self.restyled(&r, StyleRefinement { clip: Some(true), ..self.refinement() }),
    {
        let mut this = self;
        this.style.clip = Some(true);
        this
    }
}

} // verus!
