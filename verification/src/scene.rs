//! Draw commands and the discipline of scoped regions.
//!
//! A frame's scene is a sequence of [`Primitive`]s in paint order. A scoped region
//! (a clip, an offset, an opacity, a z-index) holds for a stretch of the sequence:
//! it opens with [`Primitive::PushRegion`] and closes with the
//! [`Primitive::PopRegion`] that matches it. A sequence is balanced when every push
//! has its pop after it and no pop comes without a push before it.

use vstd::prelude::*;
use crate::geometry::{Bounds, Pixels, Point};
use crate::style::Rgba;

verus! {

/// A filled and bordered box.
#[derive(Clone, Copy, Debug, PartialEq, Eq, Structural)]
pub struct Quad {
    pub bounds: Bounds,
    pub background: Rgba,
    pub border_color: Rgba,
    pub border_width: Pixels,
    pub corner_radius: Pixels,
}

/// The shadow of a box.
#[derive(Clone, Copy, Debug, PartialEq, Eq, Structural)]
pub struct Shadow {
    pub bounds: Bounds,
    pub offset: Point,
    pub corner_radius: Pixels,
    pub blur_radius: Pixels,
    pub color: Rgba,
}

/// A run of shaped text, named by the handle under which the text system keeps
/// it.
#[derive(Clone, Copy, Debug, PartialEq, Eq, Structural)]
pub struct TextRun {
    pub run: u64,
    pub origin: Point,
    pub color: Rgba,
}

/// An image, named by the handle under which the asset system keeps it.
#[derive(Clone, Copy, Debug, PartialEq, Eq, Structural)]
pub struct Image {
    pub image: u64,
    pub bounds: Bounds,
}

/// A filled vector path, named by the handle under which its outline is kept.
#[derive(Clone, Copy, Debug, PartialEq, Eq, Structural)]
pub struct Path {
    pub path: u64,
    pub bounds: Bounds,
    pub color: Rgba,
}

/// A paint modifier that holds for a sub-tree's draw commands.
#[derive(Clone, Copy, Debug, PartialEq, Eq, Structural)]
pub enum ScopedRegion {
    /// Nothing is drawn outside the rectangle.
    Clip(Bounds),
    /// Everything is moved by the offset.
    Offset(Point),
    /// Everything is drawn with the opacity, from 0 (invisible) to 255 (opaque).
    Opacity(u8),
    /// Everything is drawn on the given layer.
    ZIndex(u16),
}

/// One draw command.
#[derive(Clone, Copy, Debug, PartialEq, Eq, Structural)]
pub enum Primitive {
    Quad(Quad),
    Shadow(Shadow),
    TextRun(TextRun),
    Image(Image),
    Path(Path),
    /// Opens a scoped region.
    PushRegion(ScopedRegion),
    /// Closes the scoped region that was opened last and is still open.
    PopRegion,
}

impl Quad {
    /// A box filled with `color`, without border and with square corners.
    pub open spec fn spec_filled(bounds: Bounds, color: Rgba) -> Quad {
        Quad {
            bounds,
            background: color,
            border_color: Rgba::spec_transparent(),
            border_width: Pixels(0),
            corner_radius: Pixels(0),
        }
    }

    /// A box filled with `color`, without border and with square corners.
    #[verifier::when_used_as_spec(spec_filled)]
    pub fn filled(bounds: Bounds, color: Rgba) -> (q: Quad)
        ensures
            q == Quad::spec_filled(bounds, color),
    {
        Quad {
            bounds,
            background: color,
            border_color: Rgba::transparent(),
            border_width: Pixels(0),
            corner_radius: Pixels(0),
        }
    }
}

impl Primitive {
    /// Whether the command opens or closes a scoped region, rather than drawing.
    pub open spec fn spec_is_region_marker(&self) -> bool {
        *self is PushRegion || *self is PopRegion
    }

    /// Whether the command opens or closes a scoped region, rather than drawing.
    #[verifier::when_used_as_spec(spec_is_region_marker)]
    pub fn is_region_marker(&self) -> (r: bool)
        ensures
            r == self.spec_is_region_marker(),
    {
        match self {
            Primitive::PushRegion(_) => true,
            Primitive::PopRegion => true,
            _ => false,
        }
    }
}

/// The draw commands of a frame, or of a part of one, in paint order.
///
/// A scene is balanced at all times: it is only ever extended by a command that
/// draws, or by a whole scene put inside a scoped region.
#[derive(Debug)]
pub struct Scene {
    primitives: Vec<Primitive>,
}

impl View for Scene {
    type V = Seq<Primitive>;

    closed spec fn view(&self) -> Seq<Primitive> {
        self.primitives@
    }
}

impl Scene {
    #[verifier::type_invariant]
    spec fn is_balanced(&self) -> bool {
        balanced(self.primitives@)
    }

    /// The scene without commands.
    pub fn new() -> (scene: Scene)
        ensures
            scene@ == Seq::<Primitive>::empty(),
    {
        proof {
            lemma_balanced_empty();
        }
        Scene { primitives: Vec::new() }
    }

    /// The number of commands.
    pub fn len(&self) -> (n: usize)
        ensures
            n == self@.len(),
    {
        self.primitives.len()
    }

    /// The commands in paint order.
    ///
    /// Every scoped region that is opened among them is closed among them.
    pub fn primitives(&self) -> (all: &[Primitive])
        ensures
            all@ == self@,
            balanced(self@),
    {
        proof {
            use_type_invariant(self);
        }
        self.primitives.as_slice()
    }

    /// Hands the commands out, in paint order.
    ///
    /// Every scoped region that is opened among them is closed among them.
    pub fn into_primitives(self) -> (all: Vec<Primitive>)
        ensures
            all@ == self@,
            balanced(all@),
    {
        proof {
            use_type_invariant(&self);
        }
        self.primitives
    }

    /// Puts a command that draws after the commands of the scene.
    fn push_drawing(&mut self, p: Primitive)
        requires
            !p.spec_is_region_marker(),
        ensures
            final(self)@ == old(self)@.push(p),
    {
        proof {
            use_type_invariant(&*self);
            lemma_balanced_empty();
            lemma_balanced_push_drawing(self.primitives@, p);
        }
        let mut primitives: Vec<Primitive> = Vec::new();
        core::mem::swap(&mut primitives, &mut self.primitives);
        primitives.push(p);
        self.primitives = primitives;
    }

    /// Puts a box after the commands of the scene.
    pub fn push_quad(&mut self, quad: Quad)
        ensures
            final(self)@ == old(self)@.push(Primitive::Quad(quad)),
    {
        self.push_drawing(Primitive::Quad(quad));
    }

    /// Puts a shadow after the commands of the scene.
    pub fn push_shadow(&mut self, shadow: Shadow)
        ensures
            final(self)@ == old(self)@.push(Primitive::Shadow(shadow)),
    {
        self.push_drawing(Primitive::Shadow(shadow));
    }

    /// Puts a run of text after the commands of the scene.
    pub fn push_text_run(&mut self, run: TextRun)
        ensures
            final(self)@ == old(self)@.push(Primitive::TextRun(run)),
    {
        self.push_drawing(Primitive::TextRun(run));
    }

    /// Puts an image after the commands of the scene.
    pub fn push_image(&mut self, image: Image)
        ensures
            final(self)@ == old(self)@.push(Primitive::Image(image)),
    {
        self.push_drawing(Primitive::Image(image));
    }

    /// Puts a path after the commands of the scene.
    pub fn push_path(&mut self, path: Path)
        ensures
            final(self)@ == old(self)@.push(Primitive::Path(path)),
    {
        self.push_drawing(Primitive::Path(path));
    }

    /// Puts the commands of `inner` after the commands of the scene, inside the
    /// scoped region `region` where there is one.
    ///
    /// The region is opened just before the commands of `inner` and closed just
    /// after them, whatever they are.
    pub fn push_scoped(&mut self, region: Option<ScopedRegion>, inner: Scene)
        ensures
            final(self)@ == old(self)@ + scoped(region, inner@),
            balanced(inner@),
            balanced(final(self)@),
    {
        proof {
            use_type_invariant(&*self);
            use_type_invariant(&inner);
            lemma_balanced_empty();
            lemma_balanced_scoped(region, inner@);
            lemma_balanced_concat(self.primitives@, scoped(region, inner@));
        }
        let mut primitives: Vec<Primitive> = Vec::new();
        core::mem::swap(&mut primitives, &mut self.primitives);
        let mut inner_primitives = inner.primitives;
        match region {
            Some(r) => {
                primitives.push(Primitive::PushRegion(r));
                primitives.append(&mut inner_primitives);
                primitives.push(Primitive::PopRegion);
                assert(primitives@ =~= old(self)@ + scoped(region, inner@));
            },
            None => {
                primitives.append(&mut inner_primitives);
            },
        }
        self.primitives = primitives;
    }

    /// Hands out the scene as it is and leaves the scene without commands.
    pub fn take(&mut self) -> (taken: Scene)
        ensures
            taken@ == old(self)@,
            final(self)@ == Seq::<Primitive>::empty(),
    {
        let mut taken = Scene::new();
        core::mem::swap(&mut taken, self);
        taken
    }
}

/// By how much a command changes the number of open regions.
pub open spec fn delta(p: Primitive) -> int {
    match p {
        Primitive::PushRegion(_) => 1,
        Primitive::PopRegion => -1,
        _ => 0,
    }
}

/// The number of pushes in `s` less the number of pops.
pub open spec fn depth(s: Seq<Primitive>) -> int
    decreases s.len(),
{
    if s.len() == 0 {
        0
    } else {
        depth(s.drop_last()) + delta(s.last())
    }
}

/// Whether no pop in `s` comes without a push before it: after every prefix, at
/// least as many regions were opened as were closed.
pub open spec fn never_underflows(s: Seq<Primitive>) -> bool {
    forall|i: int| 0 <= i <= s.len() ==> #[trigger] depth(s.take(i)) >= 0
}

/// Whether every push in `s` has its pop and every pop its push.
pub open spec fn balanced(s: Seq<Primitive>) -> bool {
    never_underflows(s) && depth(s) == 0
}

/// The commands `inner` inside the scoped region `region`; as they are where
/// there is no region.
pub open spec fn scoped(region: Option<ScopedRegion>, inner: Seq<Primitive>) -> Seq<Primitive> {
    match region {
        Some(r) => seq![Primitive::PushRegion(r)] + inner + seq![Primitive::PopRegion],
        None => inner,
    }
}

/// The depth of a concatenation is the sum of the depths.
pub proof fn lemma_depth_concat(a: Seq<Primitive>, b: Seq<Primitive>)
    ensures
        depth(a + b) == depth(a) + depth(b),
    decreases b.len(),
{
    if b.len() == 0 {
        assert(a + b =~= a);
    } else {
        lemma_depth_concat(a, b.drop_last());
        assert((a + b).drop_last() =~= a + b.drop_last());
        assert((a + b).last() == b.last());
    }
}

/// The depth of a single command is its delta.
pub proof fn lemma_depth_single(p: Primitive)
    ensures
        depth(seq![p]) == delta(p),
{
    let s = seq![p];
    assert(s.drop_last() =~= Seq::<Primitive>::empty());
    assert(depth(s.drop_last()) == 0);
    assert(s.last() == p);
}

/// The empty sequence is balanced.
pub proof fn lemma_balanced_empty()
    ensures
        balanced(Seq::<Primitive>::empty()),
{
    let e = Seq::<Primitive>::empty();
    assert forall|i: int| 0 <= i <= e.len() implies #[trigger] depth(e.take(i)) >= 0 by {
        assert(e.take(i) =~= e);
    }
}

/// One balanced sequence after another is balanced.
pub proof fn lemma_balanced_concat(a: Seq<Primitive>, b: Seq<Primitive>)
    requires
        balanced(a),
        balanced(b),
    ensures
        balanced(a + b),
{
    lemma_depth_concat(a, b);
    let s = a + b;
    assert forall|i: int| 0 <= i <= s.len() implies #[trigger] depth(s.take(i)) >= 0 by {
        if i <= a.len() {
            assert(s.take(i) =~= a.take(i));
        } else {
            let j = i - a.len();
            assert(s.take(i) =~= a + b.take(j));
            lemma_depth_concat(a, b.take(j));
            assert(depth(b.take(j)) >= 0);
        }
    }
}

/// A balanced sequence stays balanced when a command that draws is put after it.
pub proof fn lemma_balanced_push_drawing(s: Seq<Primitive>, p: Primitive)
    requires
        balanced(s),
        !p.spec_is_region_marker(),
    ensures
        balanced(s.push(p)),
{
    let one = seq![p];
    lemma_depth_single(p);
    assert forall|i: int| 0 <= i <= one.len() implies #[trigger] depth(one.take(i)) >= 0 by {
        if i == 0 {
            assert(one.take(i) =~= Seq::<Primitive>::empty());
        } else {
            assert(one.take(i) =~= one);
        }
    }
    lemma_balanced_concat(s, one);
    assert(s.push(p) =~= s + one);
}

/// A balanced sequence put inside a scoped region is balanced: the push in front
/// of it is matched by the pop behind it.
pub proof fn lemma_balanced_scoped(region: Option<ScopedRegion>, inner: Seq<Primitive>)
    requires
        balanced(inner),
    ensures
        balanced(scoped(region, inner)),
{
    if let Some(r) = region {
        let push = seq![Primitive::PushRegion(r)];
        let pop = seq![Primitive::PopRegion];
        let s = push + inner + pop;
        lemma_depth_single(Primitive::PushRegion(r));
        lemma_depth_single(Primitive::PopRegion);
        lemma_depth_concat(push, inner);
        lemma_depth_concat(push + inner, pop);
        assert forall|i: int| 0 <= i <= s.len() implies #[trigger] depth(s.take(i)) >= 0 by {
            if i == 0 {
                assert(s.take(i) =~= Seq::<Primitive>::empty());
            } else if i <= 1 + inner.len() {
                let j = i - 1;
                assert(s.take(i) =~= push + inner.take(j));
                lemma_depth_concat(push, inner.take(j));
                assert(depth(inner.take(j)) >= 0);
            } else {
                assert(s.take(i) =~= s);
            }
        }
    }
}

} // verus!
