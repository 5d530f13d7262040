use std::cell::RefCell;
use std::rc::Rc;

use gpui::{
    bounds, canvas, group, point, px, size, AppContext, Bounds, Canvas, Drawable, Element,
    ElementContext,
    LayoutEngine, LayoutId, NodeStage, Primitive, Quad, Rgba, ScopedRegion, Style,
    StyleRefinement, Styled, Window, WindowContext, WindowId,
};

type Log = Rc<RefCell<Vec<String>>>;

fn gray(level: u8) -> Rgba {
    Rgba { r: level, g: level, b: level, a: 255 }
}

fn rect(x: i32, y: i32, w: i32, h: i32) -> Bounds {
    bounds(point(px(x), px(y)), size(px(w), px(h)))
}

fn fresh_context() -> WindowContext {
    WindowContext::new(AppContext::new(), Window::new(WindowId(7)))
}

/// A canvas that fills its bounds with a gray and notes each of its steps.
fn leaf(
    name: &'static str,
    level: u8,
    log: &Log,
) -> Canvas<
    u8,
    impl FnOnce(Bounds, &mut ElementContext) -> u8,
    impl FnOnce(Bounds, u8, &mut ElementContext),
> {
    let (prepaint_log, paint_log) = (log.clone(), log.clone());
    canvas(
        move |_bounds: Bounds, _cx: &mut ElementContext| {
            prepaint_log.borrow_mut().push(format!("prepaint {name}"));
            level
        },
        move |bounds: Bounds, level: u8, cx: &mut ElementContext| {
            paint_log.borrow_mut().push(format!("paint {name}"));
            cx.paint_quad(Quad::filled(bounds, gray(level)));
        },
    )
}

/// A solver that places the node behind handle `i` at `(10 * i, 0)`, one pixel
/// square.
fn place_by_handle(engine: &LayoutEngine) -> Vec<Bounds> {
    (0..engine.request_count()).map(|i| rect(10 * i as i32, 0, 1, 1)).collect()
}

#[test]
fn parent_paints_before_its_children_in_their_order() {
    let log: Log = Rc::new(RefCell::new(Vec::new()));
    let parent = group()
        .child(leaf("first", 1, &log))
        .child(leaf("second", 2, &log))
        .refined(&StyleRefinement { background: Some(gray(9)), ..StyleRefinement::default() });
    assert_eq!(parent.child_count(), 2);
    let mut root = Drawable::new(parent);
    let mut cx = fresh_context();

    let frame = cx.draw(&mut root, place_by_handle).unwrap();

    // Children register before their parent: handles 0 and 1, then 2.
    let parent_style = Style { background: gray(9), ..Style::default() };
    assert_eq!(
        frame,
        vec![
            Primitive::Quad(parent_style.background_at(rect(20, 0, 1, 1))),
            Primitive::Quad(Quad::filled(rect(0, 0, 1, 1), gray(1))),
            Primitive::Quad(Quad::filled(rect(10, 0, 1, 1), gray(2))),
        ]
    );
    assert_eq!(
        *log.borrow(),
        vec!["prepaint first", "prepaint second", "paint first", "paint second"]
    );
    assert_eq!(root.stage(), NodeStage::Painted);
}

#[test]
fn group_registers_its_children_before_itself() {
    let log: Log = Rc::new(RefCell::new(Vec::new()));
    let parent = group().child(leaf("a", 1, &log)).child(leaf("b", 2, &log));
    let mut root = Drawable::new(parent);
    let mut cx = fresh_context();

    let id = cx.layout_pass(&mut root).unwrap();

    assert_eq!(id, LayoutId(2));
    assert_eq!(cx.window.layout.request_count(), 3);
    let request = cx.window.layout.request(id).unwrap();
    assert_eq!(request.children, vec![LayoutId(0), LayoutId(1)]);
    assert_eq!(request.style, Style::default());
    assert!(cx.window.layout.request(LayoutId(0)).unwrap().children.is_empty());
    // Nothing was drawn, and no callback ran.
    assert!(cx.window.take_frame().is_empty());
    assert!(log.borrow().is_empty());
    let parent = root.into_element();
    assert_eq!(parent.child_stage(0), Some(NodeStage::LayoutRequested));
    assert_eq!(parent.child_stage(1), Some(NodeStage::LayoutRequested));
    assert_eq!(parent.child_stage(2), None);
}

#[test]
fn clipped_group_closes_its_region_after_its_children() {
    let log: Log = Rc::new(RefCell::new(Vec::new()));
    let mut parent = group().child(leaf("only", 5, &log));
    parent.style().clip = Some(true);
    parent.style().border_width = Some(px(1));
    parent.style().border_color = Some(gray(0));
    let mut root = Drawable::new(parent);
    let mut cx = fresh_context();

    let frame = cx.draw(&mut root, place_by_handle).unwrap();

    let parent_bounds = rect(10, 0, 1, 1);
    let parent_style = Style {
        clip: true,
        border_width: px(1),
        border_color: gray(0),
        ..Style::default()
    };
    assert_eq!(
        frame,
        vec![
            Primitive::PushRegion(ScopedRegion::Clip(parent_bounds)),
            Primitive::Quad(Quad::filled(rect(0, 0, 1, 1), gray(5))),
            Primitive::PopRegion,
            Primitive::Quad(parent_style.border_at(parent_bounds)),
        ]
    );
}

#[test]
fn nested_groups_paint_depth_first() {
    let log: Log = Rc::new(RefCell::new(Vec::new()));
    let left = group()
        .child(leaf("left 1", 1, &log))
        .child(leaf("left 2", 2, &log))
        .refined(&StyleRefinement { clip: Some(true), ..StyleRefinement::default() });
    let right = group().child(leaf("right 1", 3, &log));
    let tree = group().child(left).child(right);
    let mut root = Drawable::new(tree);
    let mut cx = fresh_context();

    let frame = cx.draw(&mut root, place_by_handle).unwrap();

    // Handles: left's leaves 0 and 1, left 2, right's leaf 3, right 4, root 5.
    assert_eq!(
        frame,
        vec![
            Primitive::PushRegion(ScopedRegion::Clip(rect(20, 0, 1, 1))),
            Primitive::Quad(Quad::filled(rect(0, 0, 1, 1), gray(1))),
            Primitive::Quad(Quad::filled(rect(10, 0, 1, 1), gray(2))),
            Primitive::PopRegion,
            Primitive::Quad(Quad::filled(rect(30, 0, 1, 1), gray(3))),
        ]
    );
    assert_eq!(
        *log.borrow(),
        vec![
            "prepaint left 1",
            "prepaint left 2",
            "prepaint right 1",
            "paint left 1",
            "paint left 2",
            "paint right 1",
        ]
    );
}

#[test]
fn empty_group_paints_only_its_decorations() {
    let parent = group::<Canvas<(), fn(Bounds, &mut ElementContext), fn(Bounds, (), &mut ElementContext)>>()
        .refined(&StyleRefinement { background: Some(gray(3)), ..StyleRefinement::default() });
    assert_eq!(parent.child_count(), 0);
    let mut root = Drawable::new(parent);
    let mut cx = fresh_context();
    let frame = cx.draw(&mut root, place_by_handle).unwrap();
    let style = Style { background: gray(3), ..Style::default() };
    assert_eq!(frame, vec![Primitive::Quad(style.background_at(rect(0, 0, 1, 1)))]);
}

#[test]
fn group_passes_over_children_whose_bounds_are_not_in() {
    let log: Log = Rc::new(RefCell::new(Vec::new()));
    let mut parent = group().child(leaf("a", 1, &log)).child(leaf("b", 2, &log));
    let mut cx = fresh_context();

    // Before layout: every child is passed over and stays as it is.
    let mut style = Style::default();
    cx.with_element_context(|cx| parent.prepaint(rect(0, 0, 9, 9), &mut style, cx));
    assert_eq!(parent.child_stage(0), Some(NodeStage::Unregistered));
    assert_eq!(parent.child_stage(1), Some(NodeStage::Unregistered));

    // After layout, while the solver has not run: still passed over.
    let mut style = cx.with_element_context(|cx| parent.request_layout(cx).1);
    cx.with_element_context(|cx| parent.prepaint(rect(0, 0, 9, 9), &mut style, cx));
    assert_eq!(parent.child_stage(0), Some(NodeStage::LayoutRequested));
    assert_eq!(parent.child_stage(1), Some(NodeStage::LayoutRequested));
    assert!(log.borrow().is_empty());

    // Once the solver's result is in, every child prepaints, in order.
    assert_eq!(cx.window.layout.resolve(place_by_handle(&cx.window.layout)), Ok(()));
    cx.with_element_context(|cx| parent.prepaint(rect(0, 0, 9, 9), &mut style, cx));
    assert_eq!(parent.child_stage(0), Some(NodeStage::Prepainted));
    assert_eq!(parent.child_stage(1), Some(NodeStage::Prepainted));
    assert_eq!(*log.borrow(), vec!["prepaint a", "prepaint b"]);

    // A child that has prepainted is passed over: no callback runs twice.
    cx.with_element_context(|cx| parent.prepaint(rect(0, 0, 9, 9), &mut style, cx));
    assert_eq!(parent.child_stage(0), Some(NodeStage::Prepainted));
    assert_eq!(*log.borrow(), vec!["prepaint a", "prepaint b"]);
    assert!(cx.window.take_frame().is_empty());
}

/// A canvas whose prepaint callback, where `disturb` is set, registers one more
/// layout request, which drops the solver's bounds.
fn disturbing_leaf(
    disturb: bool,
    level: u8,
) -> Canvas<
    (),
    impl FnOnce(Bounds, &mut ElementContext),
    impl FnOnce(Bounds, (), &mut ElementContext),
> {
    canvas(
        move |_bounds: Bounds, cx: &mut ElementContext| {
            if disturb {
                cx.window_mut().layout.request_layout(&Style::default(), Vec::new());
            }
        },
        move |bounds: Bounds, _payload: (), cx: &mut ElementContext| {
            cx.paint_quad(Quad::filled(bounds, gray(level)));
        },
    )
}

#[test]
fn group_reads_all_bounds_before_any_child_prepaints() {
    let parent = group().child(disturbing_leaf(true, 1)).child(disturbing_leaf(false, 2));
    let mut root = Drawable::new(parent);
    let mut cx = fresh_context();

    let frame = cx.draw(&mut root, place_by_handle).unwrap();

    // The first child dropped the solver's bounds while it prepainted; the
    // second had its bounds already.
    assert!(!cx.window.layout.is_resolved());
    assert_eq!(
        frame,
        vec![
            Primitive::Quad(Quad::filled(rect(0, 0, 1, 1), gray(1))),
            Primitive::Quad(Quad::filled(rect(10, 0, 1, 1), gray(2))),
        ]
    );
    let parent = root.into_element();
    assert_eq!(parent.child_stage(0), Some(NodeStage::Painted));
    assert_eq!(parent.child_stage(1), Some(NodeStage::Painted));
}

#[test]
fn group_paints_only_its_decorations_around_children_that_have_not_prepainted() {
    let log: Log = Rc::new(RefCell::new(Vec::new()));
    let mut parent = group()
        .child(leaf("a", 1, &log))
        .child(leaf("b", 2, &log))
        .refined(&StyleRefinement {
            background: Some(gray(9)),
            clip: Some(true),
            ..StyleRefinement::default()
        });
    let mut cx = fresh_context();
    let b = rect(0, 0, 9, 9);

    let mut style = cx.with_element_context(|cx| parent.request_layout(cx).1);
    cx.with_element_context(|cx| parent.paint(b, &mut style, &mut (), cx));

    // No child has prepainted: each is passed over and adds nothing.
    assert_eq!(
        cx.window.take_frame(),
        vec![
            Primitive::Quad(style.background_at(b)),
            Primitive::PushRegion(ScopedRegion::Clip(b)),
            Primitive::PopRegion,
        ]
    );
    assert_eq!(parent.child_stage(0), Some(NodeStage::LayoutRequested));
    assert_eq!(parent.child_stage(1), Some(NodeStage::LayoutRequested));
    assert!(log.borrow().is_empty());

    // Once they have prepainted, they paint in their order, each once.
    assert_eq!(cx.window.layout.resolve(place_by_handle(&cx.window.layout)), Ok(()));
    cx.with_element_context(|cx| parent.prepaint(b, &mut style, cx));
    cx.with_element_context(|cx| parent.paint(b, &mut style, &mut (), cx));
    cx.with_element_context(|cx| parent.paint(b, &mut style, &mut (), cx));
    assert_eq!(
        cx.window.take_frame(),
        vec![
            Primitive::Quad(style.background_at(b)),
            Primitive::PushRegion(ScopedRegion::Clip(b)),
            Primitive::Quad(Quad::filled(rect(0, 0, 1, 1), gray(1))),
            Primitive::Quad(Quad::filled(rect(10, 0, 1, 1), gray(2))),
            Primitive::PopRegion,
            Primitive::Quad(style.background_at(b)),
            Primitive::PushRegion(ScopedRegion::Clip(b)),
            Primitive::PopRegion,
        ]
    );
    assert_eq!(*log.borrow(), vec!["prepaint a", "prepaint b", "paint a", "paint b"]);
    assert_eq!(parent.child_stage(0), Some(NodeStage::Painted));
}
