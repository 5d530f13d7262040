//! Styles and the style cascade.
//!
//! A node carries a record of overrides, a [`StyleRefinement`]. Every frame the
//! record is laid over the default [`Style`] to give the node's effective style:
//! a field that the record sets wins, a field that it leaves unset keeps the base
//! value. The effective style is never stored between frames.

use vstd::prelude::*;
use crate::geometry::{Bounds, Pixels, Point, Size};
use crate::scene::{balanced, scoped, Primitive, Quad, ScopedRegion, Shadow};
use crate::window::element_cx::{DrawPhase, PaintContext};

verus! {

/// A colour with an alpha channel. An alpha of zero paints nothing.
#[derive(Clone, Copy, Debug, PartialEq, Eq, Structural)]
pub struct Rgba {
    pub r: u8,
    pub g: u8,
    pub b: u8,
    pub a: u8,
}

impl Rgba {
    /// The colour that paints nothing.
    pub open spec fn spec_transparent() -> Rgba {
        Rgba { r: 0, g: 0, b: 0, a: 0 }
    }

    /// The colour that paints nothing.
    #[verifier::when_used_as_spec(spec_transparent)]
    pub fn transparent() -> (c: Rgba)
        ensures
            c == Rgba::spec_transparent(),
    {
        Rgba { r: 0, g: 0, b: 0, a: 0 }
    }

    /// Whether painting with this colour leaves no mark.
    pub open spec fn spec_is_transparent(&self) -> bool {
        self.a == 0
    }

    /// Whether painting with this colour leaves no mark.
    #[verifier::when_used_as_spec(spec_is_transparent)]
    pub fn is_transparent(&self) -> (r: bool)
        ensures
            r == self.spec_is_transparent(),
    {
        self.a == 0
    }
}

/// A drop shadow cast by a node's box.
#[derive(Clone, Copy, Debug, PartialEq, Eq, Structural)]
pub struct BoxShadow {
    pub color: Rgba,
    pub offset: Point,
    pub blur_radius: Pixels,
}

impl BoxShadow {
    /// The shadow that casts nothing.
    pub open spec fn spec_none() -> BoxShadow {
        BoxShadow {
            color: Rgba::spec_transparent(),
            offset: Point::spec_zero(),
            blur_radius: Pixels(0),
        }
    }

    /// The shadow that casts nothing.
    #[verifier::when_used_as_spec(spec_none)]
    pub fn none() -> (s: BoxShadow)
        ensures
            s == BoxShadow::spec_none(),
    {
        BoxShadow { color: Rgba::transparent(), offset: Point::zero(), blur_radius: Pixels(0) }
    }
}

/// The effective style of a node: what layout is told about its size, and how
/// its box is decorated when it paints.
#[derive(Clone, Copy, Debug, PartialEq, Eq, Structural)]
pub struct Style {
    /// The smallest size that layout may give the node.
    pub min_size: Size,
    /// The largest size that layout may give the node.
    pub max_size: Size,
    /// The fill of the node's box.
    pub background: Rgba,
    /// The colour of the border.
    pub border_color: Rgba,
    /// The width of the border on every side.
    pub border_width: Pixels,
    /// The radius of the box's corners.
    pub corner_radius: Pixels,
    /// The shadow that the box casts.
    pub shadow: BoxShadow,
    /// Whether what the node draws is clipped to its bounds.
    pub clip: bool,
}

/// A record of style overrides: for each field of [`Style`], either a value that
/// replaces the base value or nothing.
#[derive(Clone, Copy, Debug, PartialEq, Eq, Structural)]
pub struct StyleRefinement {
    pub min_size: Option<Size>,
    pub max_size: Option<Size>,
    pub background: Option<Rgba>,
    pub border_color: Option<Rgba>,
    pub border_width: Option<Pixels>,
    pub corner_radius: Option<Pixels>,
    pub shadow: Option<BoxShadow>,
    pub clip: Option<bool>,
}

/// One field of the cascade: the override where there is one, else the base.
pub open spec fn pick<T>(base: T, over: Option<T>) -> T {
    match over {
        Some(value) => value,
        None => base,
    }
}

/// One field of a merge of two override records: the later record's value where
/// it has one, else the earlier record's.
pub open spec fn pick_later<T>(earlier: Option<T>, later: Option<T>) -> Option<T> {
    match later {
        Some(value) => Some(value),
        None => earlier,
    }
}

/// The style cascade: `over` laid over `base`, field by field.
pub open spec fn cascade(base: Style, over: StyleRefinement) -> Style {
    Style {
        min_size: pick(base.min_size, over.min_size),
        max_size: pick(base.max_size, over.max_size),
        background: pick(base.background, over.background),
        border_color: pick(base.border_color, over.border_color),
        border_width: pick(base.border_width, over.border_width),
        corner_radius: pick(base.corner_radius, over.corner_radius),
        shadow: pick(base.shadow, over.shadow),
        clip: pick(base.clip, over.clip),
    }
}

/// Two override records as one: `later` laid over `earlier`.
pub open spec fn merge(earlier: StyleRefinement, later: StyleRefinement) -> StyleRefinement {
    StyleRefinement {
        min_size: pick_later(earlier.min_size, later.min_size),
        max_size: pick_later(earlier.max_size, later.max_size),
        background: pick_later(earlier.background, later.background),
        border_color: pick_later(earlier.border_color, later.border_color),
        border_width: pick_later(earlier.border_width, later.border_width),
        corner_radius: pick_later(earlier.corner_radius, later.corner_radius),
        shadow: pick_later(earlier.shadow, later.shadow),
        clip: pick_later(earlier.clip, later.clip),
    }
}

/// `pick` on concrete values.
fn pick_value<T: Copy>(base: T, over: Option<T>) -> (r: T)
    ensures
        r == pick(base, over),
{
    match over {
        Some(value) => value,
        None => base,
    }
}

/// `pick_later` on concrete values.
fn pick_later_value<T: Copy>(earlier: Option<T>, later: Option<T>) -> (r: Option<T>)
    ensures
        r == pick_later(earlier, later),
{
    match later {
        Some(value) => Some(value),
        None => earlier,
    }
}

impl Style {
    /// The default style: any size, no fill, no border, square corners, no
    /// shadow, no clipping.
    pub open spec fn spec_default() -> Style {
        Style {
            min_size: Size::spec_zero(),
            max_size: Size::spec_max(),
            background: Rgba::spec_transparent(),
            border_color: Rgba::spec_transparent(),
            border_width: Pixels(0),
            corner_radius: Pixels(0),
            shadow: BoxShadow::spec_none(),
            clip: false,
        }
    }

    /// Lays `refinement` over this style, in place.
    pub fn refine(&mut self, refinement: &StyleRefinement)
        ensures
            *final(self) == cascade(*old(self), *refinement),
    {
        self.min_size = pick_value(self.min_size, refinement.min_size);
        self.max_size = pick_value(self.max_size, refinement.max_size);
        self.background = pick_value(self.background, refinement.background);
        self.border_color = pick_value(self.border_color, refinement.border_color);
        self.border_width = pick_value(self.border_width, refinement.border_width);
        self.corner_radius = pick_value(self.corner_radius, refinement.corner_radius);
        self.shadow = pick_value(self.shadow, refinement.shadow);
        self.clip = pick_value(self.clip, refinement.clip);
    }

    /// This style with `refinement` laid over it.
    pub fn refined(self, refinement: &StyleRefinement) -> (r: Style)
        ensures
            r == cascade(self, *refinement),
    {
        let mut style = self;
        style.refine(refinement);
        style
    }

    /// Whether the box has a fill that leaves a mark.
    pub open spec fn spec_has_background(&self) -> bool {
        !self.background.spec_is_transparent()
    }

    /// Whether the box has a fill that leaves a mark.
    #[verifier::when_used_as_spec(spec_has_background)]
    pub fn has_background(&self) -> (r: bool)
        ensures
            r == self.spec_has_background(),
    {
        !self.background.is_transparent()
    }

    /// Whether the box has a border that leaves a mark.
    pub open spec fn spec_has_border(&self) -> bool {
        self.border_width.0 > 0 && !self.border_color.spec_is_transparent()
    }

    /// Whether the box has a border that leaves a mark.
    #[verifier::when_used_as_spec(spec_has_border)]
    pub fn has_border(&self) -> (r: bool)
        ensures
            r == self.spec_has_border(),
    {
        self.border_width.0 > 0 && !self.border_color.is_transparent()
    }

    /// Whether the box casts a shadow that leaves a mark.
    pub open spec fn spec_has_shadow(&self) -> bool {
        !self.shadow.color.spec_is_transparent()
    }

    /// Whether the box casts a shadow that leaves a mark.
    #[verifier::when_used_as_spec(spec_has_shadow)]
    pub fn has_shadow(&self) -> (r: bool)
        ensures
            r == self.spec_has_shadow(),
    {
        !self.shadow.color.is_transparent()
    }

    /// The shadow that a box with this style casts when it occupies `bounds`.
    pub open spec fn spec_shadow_at(&self, bounds: Bounds) -> Shadow {
        Shadow {
            bounds,
            offset: self.shadow.offset,
            corner_radius: self.corner_radius,
            blur_radius: self.shadow.blur_radius,
            color: self.shadow.color,
        }
    }

    /// The shadow that a box with this style casts when it occupies `bounds`.
    #[verifier::when_used_as_spec(spec_shadow_at)]
    pub fn shadow_at(&self, bounds: Bounds) -> (s: Shadow)
        ensures
            s == self.spec_shadow_at(bounds),
    {
        Shadow {
            bounds,
            offset: self.shadow.offset,
            corner_radius: self.corner_radius,
            blur_radius: self.shadow.blur_radius,
            color: self.shadow.color,
        }
    }

    /// The filled box, without a border, that this style paints behind a node
    /// that occupies `bounds`.
    pub open spec fn spec_background_at(&self, bounds: Bounds) -> Quad {
        Quad {
            bounds,
            background: self.background,
            border_color: Rgba::spec_transparent(),
            border_width: Pixels(0),
            corner_radius: self.corner_radius,
        }
    }

    /// The filled box, without a border, that this style paints behind a node
    /// that occupies `bounds`.
    #[verifier::when_used_as_spec(spec_background_at)]
    pub fn background_at(&self, bounds: Bounds) -> (q: Quad)
        ensures
            q == self.spec_background_at(bounds),
    {
        Quad {
            bounds,
            background: self.background,
            border_color: Rgba::transparent(),
            border_width: Pixels(0),
            corner_radius: self.corner_radius,
        }
    }

    /// The unfilled, bordered box that this style paints over a node that
    /// occupies `bounds`.
    pub open spec fn spec_border_at(&self, bounds: Bounds) -> Quad {
        Quad {
            bounds,
            background: Rgba::spec_transparent(),
            border_color: self.border_color,
            border_width: self.border_width,
            corner_radius: self.corner_radius,
        }
    }

    /// The unfilled, bordered box that this style paints over a node that
    /// occupies `bounds`.
    #[verifier::when_used_as_spec(spec_border_at)]
    pub fn border_at(&self, bounds: Bounds) -> (q: Quad)
        ensures
            q == self.spec_border_at(bounds),
    {
        Quad {
            bounds,
            background: Rgba::transparent(),
            border_color: self.border_color,
            border_width: self.border_width,
            corner_radius: self.corner_radius,
        }
    }

    /// The scoped region that this style asks for around the content of a node
    /// that occupies `bounds`: a clip to the bounds where the style clips, else
    /// none.
    pub open spec fn spec_region_at(&self, bounds: Bounds) -> Option<ScopedRegion> {
        if self.clip {
            Some(ScopedRegion::Clip(bounds))
        } else {
            None
        }
    }

    /// The scoped region that this style asks for around the content of a node
    /// that occupies `bounds`: a clip to the bounds where the style clips, else
    /// none.
    #[verifier::when_used_as_spec(spec_region_at)]
    pub fn region_at(&self, bounds: Bounds) -> (r: Option<ScopedRegion>)
        ensures
            r == self.spec_region_at(bounds),
    {
        if self.clip {
            Some(ScopedRegion::Clip(bounds))
        } else {
            None
        }
    }
}

impl Style {
    /// The draw commands that this style puts under the content of a node that
    /// occupies `bounds`: the shadow, where one is cast, then the fill, where
    /// there is one.
    pub open spec fn under(&self, bounds: Bounds) -> Seq<Primitive> {
        let shadow = if self.spec_has_shadow() {
            seq![Primitive::Shadow(self.spec_shadow_at(bounds))]
        } else {
            Seq::<Primitive>::empty()
        };
        let fill = if self.spec_has_background() {
            seq![Primitive::Quad(self.spec_background_at(bounds))]
        } else {
            Seq::<Primitive>::empty()
        };
        shadow + fill
    }

    /// The draw commands that this style puts over the content of a node that
    /// occupies `bounds`: the border, where there is one.
    pub open spec fn over(&self, bounds: Bounds) -> Seq<Primitive> {
        if self.spec_has_border() {
            seq![Primitive::Quad(self.spec_border_at(bounds))]
        } else {
            Seq::<Primitive>::empty()
        }
    }

    /// The draw commands of a node that occupies `bounds`, has this style and
    /// draws `content`: the content inside the style's scoped region, on top of
    /// the shadow and the fill, and under the border.
    pub open spec fn decorated(&self, bounds: Bounds, content: Seq<Primitive>) -> Seq<Primitive> {
        self.under(bounds) + scoped(self.spec_region_at(bounds), content) + self.over(bounds)
    }

    /// Records the shadow and the fill of a node that occupies `bounds`.
    pub fn paint_under(&self, bounds: Bounds, cx: &mut PaintContext)
        requires
            old(cx).draw_phase().permits_drawing(),
        ensures
            final(cx).recorded() == old(cx).recorded() + self.under(bounds),
            final(cx).active_regions() == old(cx).active_regions(),
            final(cx).draw_phase() == old(cx).draw_phase(),
            final(cx).state() == old(cx).state(),
    {
        if self.has_shadow() {
            cx.paint_shadow(self.shadow_at(bounds));
        }
        if self.has_background() {
            cx.paint_quad(self.background_at(bounds));
        }
        assert(cx.recorded() =~= old(cx).recorded() + self.under(bounds));
    }

    /// Records the border of a node that occupies `bounds`.
    pub fn paint_over(&self, bounds: Bounds, cx: &mut PaintContext)
        requires
            old(cx).draw_phase().permits_drawing(),
        ensures
            final(cx).recorded() == old(cx).recorded() + self.over(bounds),
            final(cx).active_regions() == old(cx).active_regions(),
            final(cx).draw_phase() == old(cx).draw_phase(),
            final(cx).state() == old(cx).state(),
    {
        if self.has_border() {
            cx.paint_quad(self.border_at(bounds));
        }
        assert(cx.recorded() =~= old(cx).recorded() + self.over(bounds));
    }

    /// Paints a node that occupies `bounds` and has this style: records the
    /// shadow and the fill, runs `continuation` for the node's content inside
    /// the style's scoped region, and records the border.
    ///
    /// `continuation` is called once, in a scope of its own. The region that
    /// the style asks for is opened before the call and closed after it,
    /// however the call ends.
    pub fn paint<F: FnOnce(&mut PaintContext)>(
        &self,
        bounds: Bounds,
        cx: &mut PaintContext,
        continuation: F,
    )
        requires
            old(cx).draw_phase().permits_drawing(),
            forall|c: &mut PaintContext|
                c.is_inside(old(cx), old(cx).draw_phase(), self.spec_region_at(bounds))
                    ==> #[trigger] continuation.requires((c,)),
        ensures
            exists|c: &mut PaintContext|
                {
                    &&& #[trigger] continuation.ensures((c,), ())
                    &&& c.is_inside(old(cx), old(cx).draw_phase(), self.spec_region_at(bounds))
                    &&& final(cx).recorded() == old(cx).recorded() + self.decorated(
                        bounds,
                        final(c).recorded(),
                    )
                    &&& balanced(final(c).recorded())
                    &&& final(cx).state() == final(c).state()
                },
            final(cx).active_regions() == old(cx).active_regions(),
            final(cx).draw_phase() == old(cx).draw_phase(),
    {
        self.paint_under(bounds, cx);
        let ghost before = cx.recorded();
        cx.with_scope(self.region_at(bounds), continuation);
        let ghost inside = cx.recorded();
        self.paint_over(bounds, cx);
        proof {
            assert forall|content: Seq<Primitive>|
                inside == before + scoped(self.spec_region_at(bounds), content) implies cx.recorded()
                    == old(cx).recorded() + #[trigger] self.decorated(bounds, content) by {
                assert(cx.recorded() =~= old(cx).recorded() + self.decorated(bounds, content));
            }
        }
    }
}

impl Default for Style {
    fn default() -> (r: Style)
        ensures
            r == Style::spec_default(),
    {
        Style {
            min_size: Size::zero(),
            max_size: Size::max(),
            background: Rgba::transparent(),
            border_color: Rgba::transparent(),
            border_width: Pixels(0),
            corner_radius: Pixels(0),
            shadow: BoxShadow::none(),
            clip: false,
        }
    }
}

impl StyleRefinement {
    /// The record that overrides nothing.
    pub open spec fn spec_empty() -> StyleRefinement {
        StyleRefinement {
            min_size: None,
            max_size: None,
            background: None,
            border_color: None,
            border_width: None,
            corner_radius: None,
            shadow: None,
            clip: None,
        }
    }

    /// Whether the record overrides nothing.
    pub open spec fn spec_is_empty(&self) -> bool {
        *self == StyleRefinement::spec_empty()
    }

    /// Whether the record overrides nothing.
    #[verifier::when_used_as_spec(spec_is_empty)]
    pub fn is_empty(&self) -> (r: bool)
        ensures
            r == self.spec_is_empty(),
    {
        self.min_size.is_none() && self.max_size.is_none() && self.background.is_none()
            && self.border_color.is_none() && self.border_width.is_none()
            && self.corner_radius.is_none() && self.shadow.is_none() && self.clip.is_none()
    }

    /// Lays `later` over this record, in place: where both set a field, the
    /// value of `later` stays.
    pub fn refine(&mut self, later: &StyleRefinement)
        ensures
            *final(self) == merge(*old(self), *later),
    {
        self.min_size = pick_later_value(self.min_size, later.min_size);
        self.max_size = pick_later_value(self.max_size, later.max_size);
        self.background = pick_later_value(self.background, later.background);
        self.border_color = pick_later_value(self.border_color, later.border_color);
        self.border_width = pick_later_value(self.border_width, later.border_width);
        self.corner_radius = pick_later_value(self.corner_radius, later.corner_radius);
        self.shadow = pick_later_value(self.shadow, later.shadow);
        self.clip = pick_later_value(self.clip, later.clip);
    }

    /// This record with `later` laid over it.
    pub fn refined(self, later: &StyleRefinement) -> (r: StyleRefinement)
        ensures
            r == merge(self, *later),
    {
        let mut record = self;
        record.refine(later);
        record
    }
}

impl Default for StyleRefinement {
    fn default() -> (r: StyleRefinement)
        ensures
            r == StyleRefinement::spec_empty(),
    {
        StyleRefinement {
            min_size: None,
            max_size: None,
            background: None,
            border_color: None,
            border_width: None,
            corner_radius: None,
            shadow: None,
            clip: None,
        }
    }
}

/// A node whose style can be overridden.
pub trait Styled: Sized {
    /// The style overrides of the node.
    spec fn overrides(&self) -> StyleRefinement;

    /// The style overrides of the node, for changing in place.
    ///
    /// What the caller leaves in the record is the node's record afterwards.
    fn style(&mut self) -> (s: &mut StyleRefinement)
        ensures
            *s == old(self).overrides(),
            final(self).overrides() == *final(s),
    ;
}

/// The effective style keeps the base value of every field that the override
/// record leaves unset, and takes the record's value of every field that it sets.
pub proof fn lemma_cascade_override_precedence(base: Style, over: StyleRefinement)
    ensures
        over.min_size is None ==> cascade(base, over).min_size == base.min_size,
        over.min_size matches Some(v) ==> cascade(base, over).min_size == v,
        over.max_size is None ==> cascade(base, over).max_size == base.max_size,
        over.max_size matches Some(v) ==> cascade(base, over).max_size == v,
        over.background is None ==> cascade(base, over).background == base.background,
        over.background matches Some(v) ==> cascade(base, over).background == v,
        over.border_color is None ==> cascade(base, over).border_color == base.border_color,
        over.border_color matches Some(v) ==> cascade(base, over).border_color == v,
        over.border_width is None ==> cascade(base, over).border_width == base.border_width,
        over.border_width matches Some(v) ==> cascade(base, over).border_width == v,
        over.corner_radius is None ==> cascade(base, over).corner_radius == base.corner_radius,
        over.corner_radius matches Some(v) ==> cascade(base, over).corner_radius == v,
        over.shadow is None ==> cascade(base, over).shadow == base.shadow,
        over.shadow matches Some(v) ==> cascade(base, over).shadow == v,
        over.clip is None ==> cascade(base, over).clip == base.clip,
        over.clip matches Some(v) ==> cascade(base, over).clip == v,
{
}

/// An override record that sets nothing leaves every style as it is.
pub proof fn lemma_cascade_empty(base: Style)
    ensures
        cascade(base, StyleRefinement::spec_empty()) == base,
{
}

/// Laying the same override record over a style a second time changes nothing.
pub proof fn lemma_cascade_idempotent(base: Style, over: StyleRefinement)
    ensures
        cascade(cascade(base, over), over) == cascade(base, over),
{
}

/// Laying two override records over a style one after the other gives the same
/// style as laying their merge over it.
pub proof fn lemma_cascade_merge(base: Style, earlier: StyleRefinement, later: StyleRefinement)
    ensures
        cascade(cascade(base, earlier), later) == cascade(base, merge(earlier, later)),
{
}

/// Merging with the record that sets nothing, on either side, changes nothing.
pub proof fn lemma_merge_empty(record: StyleRefinement)
    ensures
        merge(record, StyleRefinement::spec_empty()) == record,
        merge(StyleRefinement::spec_empty(), record) == record,
{
}

} // verus!
