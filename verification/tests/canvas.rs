use std::cell::Cell;
use std::rc::Rc;

use gpui::{
    bounds, canvas, point, px, size, AppContext, Bounds, Drawable, DrawPhase, Element,
    ElementContext, IntoElement, FrameError, LayoutEngine, LayoutError, LayoutId, NodeStage, Primitive,
    ProtocolError, Quad, Rgba, ScopedRegion, Style, StyleRefinement, Styled, Window,
    WindowContext, WindowId,
};

fn red() -> Rgba {
    Rgba { r: 255, g: 0, b: 0, a: 255 }
}

fn green() -> Rgba {
    Rgba { r: 0, g: 255, b: 0, a: 255 }
}

fn rect(x: i32, y: i32, w: i32, h: i32) -> Bounds {
    bounds(point(px(x), px(y)), size(px(w), px(h)))
}

fn window_context() -> WindowContext {
    WindowContext::new(AppContext::new(), Window::new(WindowId(1)))
}

/// A solver that gives every node the same bounds.
fn place_all_at(b: Bounds) -> impl FnOnce(&LayoutEngine) -> Vec<Bounds> {
    move |engine: &LayoutEngine| vec![b; engine.request_count()]
}

#[test]
fn single_canvas_paints_one_quad_matching_its_bounds() {
    let resolved = rect(10, 20, 100, 50);
    let seen_len = Rc::new(Cell::new(0usize));
    let seen = seen_len.clone();
    let node = canvas(
        |bounds: Bounds, _cx: &mut ElementContext| {
            format!("{}x{}", bounds.size.width.0, bounds.size.height.0).len()
        },
        move |bounds: Bounds, text_len: usize, cx: &mut ElementContext| {
            seen.set(text_len);
            cx.paint_quad(Quad::filled(bounds, red()));
        },
    );
    let mut root = Drawable::new(node);
    let mut cx = window_context();

    let frame = cx.draw(&mut root, place_all_at(resolved)).unwrap();

    assert_eq!(frame, vec![Primitive::Quad(Quad::filled(resolved, red()))]);
    assert_eq!(frame.len(), 1);
    // "100x50" has six characters.
    assert_eq!(seen_len.get(), 6);
    assert_eq!(root.stage(), NodeStage::Painted);
}

#[test]
fn canvas_callbacks_run_exactly_once_per_frame() {
    let prepaints = Rc::new(Cell::new(0u32));
    let paints = Rc::new(Cell::new(0u32));
    let (prepaint_count, paint_count) = (prepaints.clone(), paints.clone());
    let node = canvas(
        move |_bounds: Bounds, _cx: &mut ElementContext| {
            prepaint_count.set(prepaint_count.get() + 1)
        },
        move |_bounds: Bounds, _payload: (), _cx: &mut ElementContext| {
            paint_count.set(paint_count.get() + 1)
        },
    );
    let mut root = Drawable::new(node);
    let mut cx = window_context();

    assert!(cx.draw(&mut root, place_all_at(rect(0, 0, 1, 1))).is_ok());
    assert_eq!((prepaints.get(), paints.get()), (1, 1));

    // Every further attempt is refused and runs nothing.
    let again = cx.with_element_context(|cx| (root.prepaint(cx), root.paint(cx)));
    assert_eq!(again.0, Err(ProtocolError::AlreadyPrepainted));
    assert_eq!(again.1, Err(ProtocolError::AlreadyPainted));
    assert_eq!(
        cx.draw(&mut root, place_all_at(rect(0, 0, 1, 1))),
        Err(FrameError::Protocol(ProtocolError::LayoutAlreadyRequested))
    );
    assert_eq!((prepaints.get(), paints.get()), (1, 1));
}

#[test]
fn requesting_layout_twice_is_rejected() {
    let node = canvas(
        |_bounds: Bounds, _cx: &mut ElementContext| (),
        |_bounds: Bounds, _payload: (), _cx: &mut ElementContext| (),
    );
    let mut root = Drawable::new(node);
    let mut cx = window_context();

    let first = cx.layout_pass(&mut root);
    assert_eq!(first, Ok(LayoutId(0)));
    assert_eq!(root.stage(), NodeStage::LayoutRequested);
    assert_eq!(root.layout_id(), Some(LayoutId(0)));

    let second = cx.layout_pass(&mut root);
    assert_eq!(second, Err(ProtocolError::LayoutAlreadyRequested));
    // The refused request changed nothing: still one registration.
    assert_eq!(root.stage(), NodeStage::LayoutRequested);
    assert_eq!(cx.window.layout.request_count(), 1);

    let third = cx.with_element_context(|cx| root.request_layout(cx));
    assert_eq!(third, Err(ProtocolError::LayoutAlreadyRequested));
    assert_eq!(cx.window.layout.request_count(), 1);
}

#[test]
fn steps_out_of_order_are_refused_and_run_nothing() {
    let ran = Rc::new(Cell::new(0u32));
    let (ran_prepaint, ran_paint) = (ran.clone(), ran.clone());
    let node = canvas(
        move |_bounds: Bounds, _cx: &mut ElementContext| ran_prepaint.set(ran_prepaint.get() + 1),
        move |_bounds: Bounds, _payload: (), _cx: &mut ElementContext| {
            ran_paint.set(ran_paint.get() + 10)
        },
    );
    let mut root = Drawable::new(node);
    let mut cx = window_context();

    // Before layout: no bounds, no prepaint, no paint.
    cx.with_element_context(|cx| {
        assert_eq!(root.resolve_bounds(cx), Err(ProtocolError::LayoutNotRequested));
        assert_eq!(root.prepaint(cx), Err(ProtocolError::BoundsNotResolved));
        assert_eq!(root.paint(cx), Err(ProtocolError::NotPrepainted));
        assert_eq!(root.stage(), NodeStage::Unregistered);

        assert!(root.request_layout(cx).is_ok());
        // The solver has not run.
        assert_eq!(root.resolve_bounds(cx), Err(ProtocolError::LayoutNotSolved));
        assert_eq!(root.prepaint(cx), Err(ProtocolError::BoundsNotResolved));
        assert_eq!(root.paint(cx), Err(ProtocolError::NotPrepainted));
        assert_eq!(root.stage(), NodeStage::LayoutRequested);
    });
    assert_eq!(ran.get(), 0);

    assert_eq!(cx.window.layout.resolve(vec![rect(1, 2, 3, 4)]), Ok(()));
    cx.with_element_context(|cx| {
        assert_eq!(root.resolve_bounds(cx), Ok(rect(1, 2, 3, 4)));
        assert_eq!(root.bounds(), Some(rect(1, 2, 3, 4)));
        assert_eq!(root.resolve_bounds(cx), Err(ProtocolError::BoundsAlreadyResolved));
        // Paint before prepaint.
        assert_eq!(root.paint(cx), Err(ProtocolError::NotPrepainted));
        assert_eq!(root.stage(), NodeStage::BoundsResolved);
    });
    assert_eq!(ran.get(), 0);

    cx.with_element_context(|cx| {
        assert_eq!(root.prepaint(cx), Ok(()));
        assert_eq!(root.stage(), NodeStage::Prepainted);
        assert_eq!(root.prepaint(cx), Err(ProtocolError::AlreadyPrepainted));
        assert_eq!(root.resolve_bounds(cx), Err(ProtocolError::BoundsAlreadyResolved));
        assert_eq!(root.paint(cx), Ok(()));
        assert_eq!(root.stage(), NodeStage::Painted);
        assert_eq!(root.paint(cx), Err(ProtocolError::AlreadyPainted));
        assert_eq!(root.bounds(), None);
    });
    assert_eq!(ran.get(), 11);
}

#[test]
fn canvas_registers_with_its_effective_style_and_no_children() {
    let node = canvas(
        |_bounds: Bounds, _cx: &mut ElementContext| (),
        |_bounds: Bounds, _payload: (), _cx: &mut ElementContext| (),
    )
    .bg(red())
    .rounded(px(4))
    .min_size(size(px(10), px(12)));
    let mut root = Drawable::new(node);
    let mut cx = window_context();

    let id = cx.layout_pass(&mut root).unwrap();

    let request = cx.window.layout.request(id).unwrap();
    let expected = Style {
        background: red(),
        corner_radius: px(4),
        min_size: size(px(10), px(12)),
        ..Style::default()
    };
    assert_eq!(request.style, expected);
    assert!(request.children.is_empty());
    assert!(cx.window.layout.request(LayoutId(1)).is_none());
}

#[test]
fn canvas_without_overrides_registers_the_default_style() {
    let mut node = canvas(
        |_bounds: Bounds, _cx: &mut ElementContext| (),
        |_bounds: Bounds, _payload: (), _cx: &mut ElementContext| (),
    );
    assert_eq!(*node.style(), StyleRefinement::default());
    let mut root = Drawable::new(node);
    let mut cx = window_context();
    let id = cx.layout_pass(&mut root).unwrap();
    assert_eq!(cx.window.layout.request(id).unwrap().style, Style::default());
}

#[test]
fn canvas_style_can_be_changed_in_place() {
    let mut node = canvas(
        |_bounds: Bounds, _cx: &mut ElementContext| (),
        |_bounds: Bounds, _payload: (), _cx: &mut ElementContext| (),
    );
    node.style().background = Some(green());
    node.style().clip = Some(true);
    let mut root = Drawable::new(node);
    let mut cx = window_context();
    let id = cx.layout_pass(&mut root).unwrap();
    let style = cx.window.layout.request(id).unwrap().style;
    assert_eq!(style.background, green());
    assert!(style.clip);
}

#[test]
fn canvas_paints_between_its_decorations() {
    let b = rect(0, 0, 40, 30);
    let shadow = gpui::BoxShadow { color: green(), offset: point(px(1), px(2)), blur_radius: px(3) };
    let node = canvas(
        |_bounds: Bounds, _cx: &mut ElementContext| 7u8,
        move |bounds: Bounds, _payload: u8, cx: &mut ElementContext| {
            cx.paint_quad(Quad::filled(bounds, red()));
        },
    )
    .bg(green())
    .border(px(2), red())
    .rounded(px(5))
    .shadow(shadow);
    let mut root = Drawable::new(node);
    let mut cx = window_context();

    let frame = cx.draw(&mut root, place_all_at(b)).unwrap();

    let style = Style {
        background: green(),
        border_width: px(2),
        border_color: red(),
        corner_radius: px(5),
        shadow,
        ..Style::default()
    };
    assert_eq!(
        frame,
        vec![
            Primitive::Shadow(style.shadow_at(b)),
            Primitive::Quad(style.background_at(b)),
            Primitive::Quad(Quad::filled(b, red())),
            Primitive::Quad(style.border_at(b)),
        ]
    );
    assert_eq!(
        style.background_at(b),
        Quad {
            bounds: b,
            background: green(),
            border_color: Rgba::transparent(),
            border_width: px(0),
            corner_radius: px(5),
        }
    );
    assert_eq!(
        style.border_at(b),
        Quad {
            bounds: b,
            background: Rgba::transparent(),
            border_color: red(),
            border_width: px(2),
            corner_radius: px(5),
        }
    );
}

#[test]
fn clipped_canvas_paints_inside_a_region_that_is_closed_again() {
    let b = rect(5, 5, 20, 20);
    let depth_inside = Rc::new(Cell::new(0usize));
    let innermost = Rc::new(Cell::new(None));
    let (d, r) = (depth_inside.clone(), innermost.clone());
    let node = canvas(
        |_bounds: Bounds, _cx: &mut ElementContext| (),
        move |bounds: Bounds, _payload: (), cx: &mut ElementContext| {
            d.set(cx.region_depth());
            r.set(cx.innermost_region());
            cx.paint_quad(Quad::filled(bounds, red()));
        },
    )
    .clipped();
    let mut root = Drawable::new(node);
    let mut cx = window_context();

    let frame = cx.draw(&mut root, place_all_at(b)).unwrap();

    assert_eq!(
        frame,
        vec![
            Primitive::PushRegion(ScopedRegion::Clip(b)),
            Primitive::Quad(Quad::filled(b, red())),
            Primitive::PopRegion,
        ]
    );
    assert_eq!(depth_inside.get(), 1);
    assert_eq!(innermost.get(), Some(ScopedRegion::Clip(b)));
}

#[test]
fn region_is_closed_when_the_paint_callback_returns_early() {
    let b = rect(0, 0, 10, 10);
    let node = canvas(
        |bounds: Bounds, _cx: &mut ElementContext| bounds.is_empty(),
        move |bounds: Bounds, give_up: bool, cx: &mut ElementContext| {
            cx.with_region(ScopedRegion::Opacity(128), |cx| {
                cx.paint_quad(Quad::filled(bounds, red()));
                if !give_up {
                    // Leaves before the rest is drawn.
                    return;
                }
                cx.paint_quad(Quad::filled(bounds, green()));
            });
        },
    )
    .clipped();
    let mut root = Drawable::new(node);
    let mut cx = window_context();

    let frame = cx.draw(&mut root, place_all_at(b)).unwrap();

    assert_eq!(
        frame,
        vec![
            Primitive::PushRegion(ScopedRegion::Clip(b)),
            Primitive::PushRegion(ScopedRegion::Opacity(128)),
            Primitive::Quad(Quad::filled(b, red())),
            Primitive::PopRegion,
            Primitive::PopRegion,
        ]
    );
}

#[test]
fn what_a_prepaint_callback_draws_does_not_reach_the_frame() {
    let b = rect(0, 0, 10, 10);
    let phase_in_prepaint = Rc::new(Cell::new(DrawPhase::Idle));
    let phase_in_paint = Rc::new(Cell::new(DrawPhase::Idle));
    let (seen_in_prepaint, seen_in_paint) = (phase_in_prepaint.clone(), phase_in_paint.clone());
    let node = canvas(
        move |bounds: Bounds, cx: &mut ElementContext| {
            seen_in_prepaint.set(cx.phase());
            // Out of turn: code that is not verified can ignore that nothing
            // is drawn while prepainting. The slot drops what it draws.
            cx.paint_quad(Quad::filled(bounds, green()));
        },
        move |bounds: Bounds, _payload: (), cx: &mut ElementContext| {
            seen_in_paint.set(cx.phase());
            cx.paint_quad(Quad::filled(bounds, red()));
        },
    );
    let mut root = Drawable::new(node);
    let mut cx = window_context();

    let frame = cx.draw(&mut root, place_all_at(b)).unwrap();

    assert_eq!(frame, vec![Primitive::Quad(Quad::filled(b, red()))]);
    assert_eq!(phase_in_prepaint.get(), DrawPhase::Prepaint);
    assert_eq!(phase_in_paint.get(), DrawPhase::Paint);
}

#[test]
fn frame_is_given_up_when_the_solver_miscounts() {
    let node = canvas(
        |_bounds: Bounds, _cx: &mut ElementContext| (),
        |bounds: Bounds, _payload: (), cx: &mut ElementContext| {
            cx.paint_quad(Quad::filled(bounds, red()));
        },
    );
    let mut root = Drawable::new(node);
    let mut cx = window_context();

    let result = cx.draw(&mut root, |_engine: &LayoutEngine| Vec::new());

    assert_eq!(result, Err(FrameError::Layout(LayoutError::BoundsMismatch)));
    assert_eq!(root.stage(), NodeStage::LayoutRequested);
    assert!(!cx.window.layout.is_resolved());
    // The second walk is refused while the solver's result is not in.
    assert_eq!(cx.paint_pass(&mut root), Err(ProtocolError::LayoutNotSolved));
    // Once it is in, the frame can be completed.
    assert_eq!(cx.window.layout.resolve(vec![rect(1, 1, 2, 2)]), Ok(()));
    assert_eq!(cx.paint_pass(&mut root), Ok(()));
    assert_eq!(cx.window.take_frame(), vec![Primitive::Quad(Quad::filled(rect(1, 1, 2, 2), red()))]);
    assert_eq!(cx.paint_pass(&mut root), Err(ProtocolError::BoundsAlreadyResolved));
}

#[test]
fn second_walk_is_refused_before_the_first() {
    let node = canvas(
        |_bounds: Bounds, _cx: &mut ElementContext| (),
        |_bounds: Bounds, _payload: (), _cx: &mut ElementContext| (),
    );
    let mut root = Drawable::new(node);
    let mut cx = window_context();
    assert_eq!(cx.paint_pass(&mut root), Err(ProtocolError::LayoutNotRequested));
    assert_eq!(root.stage(), NodeStage::Unregistered);
}

#[test]
fn node_without_solved_bounds_falls_back_to_empty_bounds() {
    let mut cx = window_context();
    assert_eq!(cx.window.layout.layout_bounds(LayoutId(3)), Bounds::empty());
    let style = Style::default();
    let id = cx.window.layout.request_layout(&style, Vec::new());
    assert_eq!(cx.window.layout.layout_bounds(id), Bounds::empty());
    assert_eq!(cx.window.layout.resolve(vec![rect(1, 2, 3, 4)]), Ok(()));
    assert_eq!(cx.window.layout.layout_bounds(id), rect(1, 2, 3, 4));
    assert_eq!(cx.window.layout.layout_bounds(LayoutId(1)), Bounds::empty());
    // A new request drops the bounds: they did not account for it.
    let second = cx.window.layout.request_layout(&style, vec![id]);
    assert_eq!(second, LayoutId(1));
    assert!(!cx.window.layout.is_resolved());
    assert_eq!(cx.window.layout.layout_bounds(id), Bounds::empty());
    assert_eq!(cx.window.layout.request(second).unwrap().children, vec![id]);
}

#[test]
fn canvas_steps_can_be_taken_by_hand() {
    let b = rect(2, 3, 4, 5);
    let mut node = canvas(
        |bounds: Bounds, _cx: &mut ElementContext| bounds.size.width.0 + bounds.size.height.0,
        |bounds: Bounds, sum: i32, cx: &mut ElementContext| {
            cx.paint_quad(Quad::filled(bounds, Rgba { r: sum as u8, g: 0, b: 0, a: 255 }));
        },
    );
    let mut cx = window_context();
    let (mut style, mut payload) = cx.with_element_context(|cx| {
        let (_id, mut style) = node.request_layout(cx);
        let payload = node.prepaint(b, &mut style, cx);
        (style, payload)
    });
    assert_eq!(style, Style::default());
    assert_eq!(payload, Some(9));
    cx.with_element_context(|cx| node.paint(b, &mut style, &mut payload, cx));
    assert_eq!(payload, None);
    assert_eq!(
        cx.window.take_frame(),
        vec![Primitive::Quad(Quad::filled(b, Rgba { r: 9, g: 0, b: 0, a: 255 }))]
    );
}

#[test]
fn canvas_turns_into_itself_with_its_style() {
    let node = canvas(
        |_bounds: Bounds, _cx: &mut ElementContext| (),
        |_bounds: Bounds, _payload: (), _cx: &mut ElementContext| (),
    )
    .bg(red())
    .max_size(size(px(8), px(9)))
    .refined(&StyleRefinement { background: Some(green()), ..StyleRefinement::default() });
    let mut element = node.into_element();
    assert_eq!(
        *element.style(),
        StyleRefinement {
            background: Some(green()),
            max_size: Some(size(px(8), px(9))),
            ..StyleRefinement::default()
        }
    );
}

#[test]
fn layout_can_be_requested_and_read_by_hand() {
    let mut cx = window_context();
    let style = Style { corner_radius: px(3), ..Style::default() };
    let (child, parent) = cx.with_element_context(|cx| {
        let child = cx.request_layout(&style, Vec::new());
        let parent = cx.request_layout(&Style::default(), vec![child]);
        // The solver has not run: every node falls back to the empty bounds.
        assert_eq!(cx.layout_bounds(child), Bounds::empty());
        (child, parent)
    });
    assert_eq!((child, parent), (LayoutId(0), LayoutId(1)));
    assert_eq!(cx.window.layout.request(child).unwrap().style, style);
    assert_eq!(cx.window.layout.request(parent).unwrap().children, vec![child]);
    assert_eq!(cx.window.layout.resolve(vec![rect(1, 1, 1, 1), rect(0, 0, 4, 4)]), Ok(()));
    cx.with_element_context(|cx| {
        assert_eq!(cx.layout_bounds(child), rect(1, 1, 1, 1));
        assert_eq!(cx.layout_bounds(parent), rect(0, 0, 4, 4));
        assert_eq!(cx.layout_bounds(LayoutId(2)), Bounds::empty());
    });
}

#[test]
fn prepaint_callback_sees_the_bounds_and_the_state() {
    let b = rect(3, 4, 5, 6);
    let mut cx = window_context();
    let counter = cx.new_model(40);
    let node = canvas(
        move |bounds: Bounds, cx: &mut ElementContext| {
            assert_eq!(cx.layout_bounds(LayoutId(0)), bounds);
            cx.update_model(&counter, |v| v + 2).unwrap()
        },
        move |bounds: Bounds, count: i64, cx: &mut ElementContext| {
            assert_eq!(cx.read_model(&counter), Ok(count));
            cx.paint_quad(Quad::filled(bounds, Rgba { r: count as u8, g: 0, b: 0, a: 255 }));
        },
    );
    let mut root = Drawable::new(node);

    let frame = cx.draw(&mut root, place_all_at(b)).unwrap();

    assert_eq!(frame, vec![Primitive::Quad(Quad::filled(b, Rgba { r: 42, g: 0, b: 0, a: 255 }))]);
    // What the callbacks did to the state outlives the frame.
    assert_eq!(cx.read_model(&counter), Ok(42));
}

#[test]
fn node_keeps_its_identity_through_the_frame() {
    let make = || {
        canvas(
            |_bounds: Bounds, _cx: &mut ElementContext| (),
            |_bounds: Bounds, _payload: (), _cx: &mut ElementContext| (),
        )
    };
    let anonymous = Drawable::new(make());
    assert_eq!(anonymous.id(), None);
    let mut named = Drawable::with_id(make(), gpui::ElementId(17));
    assert_eq!(named.id(), Some(gpui::ElementId(17)));
    assert_eq!(named.stage(), NodeStage::Unregistered);
    let mut cx = window_context();
    assert!(cx.draw(&mut named, place_all_at(rect(0, 0, 1, 1))).is_ok());
    assert_eq!(named.id(), Some(gpui::ElementId(17)));
    assert_eq!(named.stage(), NodeStage::Painted);
}
