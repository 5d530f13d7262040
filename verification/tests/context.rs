use std::borrow::Borrow;

use gpui::{
    bounds, point, px, size, AppContext, Bounds, DrawPhase, ElementContext, EntityId, Model,
    Primitive, Quad, Rgba, ScopedRegion, StateError, ViewHandle, Window, WindowContext, WindowId,
};

fn context() -> WindowContext {
    WindowContext::new(AppContext::new(), Window::new(WindowId(42)))
}

fn unit() -> Bounds {
    bounds(point(px(0), px(0)), size(px(1), px(1)))
}

#[test]
fn state_cells_are_made_read_and_updated_by_identity() {
    let mut app = AppContext::new();
    let a = app.new_model(10);
    let b = app.new_model(-3);
    assert_eq!((a.id, b.id), (EntityId(0), EntityId(1)));
    assert_eq!(app.entity_count(), 2);
    assert_eq!(app.read_model(&a), Ok(10));
    assert_eq!(app.update_model(&a, |v| v * 2 + 1), Ok(21));
    assert_eq!(app.read_model(&a), Ok(21));
    assert_eq!(app.read_model(&b), Ok(-3));
}

#[test]
fn unknown_state_cell_is_refused() {
    let mut app = AppContext::new();
    let stranger = Model { id: EntityId(5) };
    assert_eq!(app.read_model(&stranger), Err(StateError::UnknownEntity));
    let mut called = false;
    assert_eq!(
        app.update_model(&stranger, |v| {
            called = true;
            v
        }),
        Err(StateError::UnknownEntity)
    );
    assert!(!called);
    assert_eq!(app.entity_count(), 0);
}

#[test]
fn reserved_cell_holds_no_value_until_it_is_inserted() {
    let mut app = AppContext::new();
    let reservation = app.reserve_model();
    let id = reservation.id();
    assert_eq!(id, EntityId(0));
    assert_eq!(app.read_model(&Model { id }), Err(StateError::UnknownEntity));
    let later = app.new_model(1);
    assert_eq!(later.id, EntityId(1));
    assert_eq!(app.insert_model(reservation, 77), Ok(Model { id }));
    assert_eq!(app.read_model(&Model { id }), Ok(77));
}

#[test]
fn reservation_of_another_application_is_refused() {
    let mut first = AppContext::new();
    let mut second = AppContext::new();
    let reservation = first.reserve_model();
    assert_eq!(second.insert_model(reservation, 1), Err(StateError::NotReserved));
    assert_eq!(second.entity_count(), 0);
    // A cell that holds a value already takes no reservation either.
    let filled = second.new_model(5);
    let mut third = AppContext::new();
    let stale = third.reserve_model();
    assert_eq!(stale.id(), filled.id);
    assert_eq!(second.insert_model(stale, 9), Err(StateError::NotReserved));
    assert_eq!(second.read_model(&filled), Ok(5));
}

#[test]
fn element_context_forwards_state_access_to_the_application() {
    let mut cx = context();
    let kept = cx.new_model(5);
    let (made, read, updated, missing) = cx.with_element_context(|cx: &mut ElementContext| {
        let made = cx.new_model(8);
        let read = cx.read_model(&kept);
        let updated = cx.update_model(&made, |v| v + 1);
        let reservation = cx.reserve_model();
        let inserted = cx.insert_model(reservation, 30);
        assert_eq!(inserted, Ok(Model { id: EntityId(2) }));
        let missing = cx.read_model(&Model { id: EntityId(9) });
        (made, read, updated, missing)
    });
    assert_eq!(made.id, EntityId(1));
    assert_eq!(read, Ok(5));
    assert_eq!(updated, Ok(9));
    assert_eq!(missing, Err(StateError::UnknownEntity));
    // What the callback did to the state is still there afterwards.
    assert_eq!(cx.read_model(&made), Ok(9));
    assert_eq!(cx.read_model(&Model { id: EntityId(2) }), Ok(30));
    assert_eq!(cx.app.entity_count(), 3);
}

#[test]
fn element_context_starts_idle_and_empty() {
    let mut cx = context();
    cx.with_element_context(|cx: &mut ElementContext| {
        assert_eq!(cx.phase(), DrawPhase::Idle);
        assert_eq!(cx.scene().len(), 0);
        assert_eq!(cx.region_depth(), 0);
        assert_eq!(cx.innermost_region(), None);
        assert_eq!(cx.window().id, WindowId(42));
        assert_eq!(cx.window_context().window.id, WindowId(42));
        assert_eq!(cx.app().entity_count(), 0);
    });
}

#[test]
fn element_context_can_be_seen_as_app_or_window_state() {
    let mut cx = context();
    cx.new_model(1);
    cx.with_element_context(|cx: &mut ElementContext| {
        let app: &AppContext = (*cx).borrow();
        assert_eq!(app.entity_count(), 1);
        let window: &Window = (*cx).borrow();
        assert_eq!(window.id, WindowId(42));
        let both: &WindowContext = (*cx).borrow();
        assert_eq!(both.app.entity_count(), 1);
        // The same state, changed through one view, shows in the others.
        cx.app_mut().new_model(2);
        assert_eq!(cx.window_context().app.entity_count(), 2);
        cx.window_context_mut().new_model(3);
        assert_eq!(cx.app().entity_count(), 3);
        cx.window_mut().focused_view = Some(EntityId(1));
        assert_eq!(cx.window().focused_view, Some(EntityId(1)));
    });
    assert_eq!(cx.app.entity_count(), 3);
    assert_eq!(cx.window.focused_view, Some(EntityId(1)));
}

#[test]
fn window_is_reached_by_its_handle_only() {
    let mut cx = context();
    cx.with_element_context(|cx: &mut ElementContext| {
        let made = cx.update_window(WindowId(42), |w: &mut WindowContext| w.new_model(4));
        assert_eq!(made, Ok(Model { id: EntityId(0) }));
        let mut called = false;
        let refused = cx.update_window(WindowId(1), |_w: &mut WindowContext| called = true);
        assert_eq!(refused, Err(StateError::WindowNotFound));
        assert!(!called);
        let count = cx.read_window(WindowId(42), |w: &Window, app: &AppContext| {
            (w.id, app.entity_count())
        });
        assert_eq!(count, Ok((WindowId(42), 1)));
        let refused = cx.read_window(WindowId(2), |_w: &Window, _app: &AppContext| ());
        assert_eq!(refused, Err(StateError::WindowNotFound));
    });
}

#[test]
fn views_can_be_made_shown_focused_and_dismissed() {
    let mut cx = context();
    cx.with_element_context(|cx: &mut ElementContext| {
        let plain = cx.new_view(1);
        assert_eq!(plain, ViewHandle { model: Model { id: EntityId(0) } });
        assert_eq!(cx.window().root_view, None);
        assert_eq!(cx.update_view(&plain, |v| v + 41), Ok(42));

        let root = cx.replace_root_view(2);
        assert_eq!(cx.window().root_view, Some(root.model.id));
        let next = cx.replace_root_view(3);
        assert_eq!(cx.window().root_view, Some(next.model.id));

        assert_eq!(cx.focus_view(&plain), Ok(()));
        assert_eq!(cx.window().focused_view, Some(plain.model.id));
        let stranger = ViewHandle { model: Model { id: EntityId(99) } };
        assert_eq!(cx.focus_view(&stranger), Err(StateError::UnknownEntity));
        assert_eq!(cx.update_view(&stranger, |v| v), Err(StateError::UnknownEntity));
        assert_eq!(cx.window().focused_view, Some(plain.model.id));

        // A view that the window does not show cannot be dismissed.
        assert_eq!(cx.dismiss_view(&root), Err(StateError::UnknownEntity));
        assert_eq!(cx.dismiss_view(&plain), Ok(()));
        assert_eq!(cx.window().focused_view, None);
        assert_eq!(cx.window().root_view, Some(next.model.id));
        assert_eq!(cx.dismiss_view(&next), Ok(()));
        assert_eq!(cx.window().root_view, None);
        assert_eq!(cx.dismiss_view(&next), Err(StateError::UnknownEntity));
    });
}

#[test]
fn what_a_pass_records_is_put_after_the_frame_under_way() {
    let mut cx = context();
    let red = Rgba { r: 255, g: 0, b: 0, a: 255 };
    cx.with_element_context(|cx: &mut ElementContext| {
        cx.paint_quad(Quad::filled(unit(), red));
    });
    let returned = cx.with_element_context(|cx: &mut ElementContext| {
        cx.with_region(ScopedRegion::Opacity(9), |cx| {
            assert_eq!(cx.region_depth(), 1);
            // Inside a scope the recording starts anew.
            assert_eq!(cx.scene().len(), 0);
            cx.paint_quad(Quad::filled(unit(), red));
            "done"
        })
    });
    assert_eq!(returned, "done");
    assert_eq!(
        cx.window.take_frame(),
        vec![
            Primitive::Quad(Quad::filled(unit(), red)),
            Primitive::PushRegion(ScopedRegion::Opacity(9)),
            Primitive::Quad(Quad::filled(unit(), red)),
            Primitive::PopRegion,
        ]
    );
    // Taking the frame leaves it empty; a new frame starts empty too.
    assert!(cx.window.take_frame().is_empty());
    cx.with_element_context(|cx: &mut ElementContext| cx.paint_quad(Quad::filled(unit(), red)));
    cx.window.begin_frame();
    assert!(cx.window.take_frame().is_empty());
}

#[test]
fn regions_nest_and_unwind_in_order() {
    let mut cx = context();
    let depths = cx.with_element_context(|cx: &mut ElementContext| {
        let before = cx.region_depth();
        let inside = cx.with_region(ScopedRegion::Clip(unit()), |cx| {
            let one = (cx.region_depth(), cx.innermost_region());
            let two = cx.with_region(ScopedRegion::ZIndex(2), |cx| {
                (cx.region_depth(), cx.innermost_region())
            });
            // The inner region is closed; the outer one is on top again.
            assert_eq!(cx.innermost_region(), Some(ScopedRegion::Clip(unit())));
            (one, two)
        });
        (before, inside, cx.region_depth())
    });
    assert_eq!(depths.0, 0);
    assert_eq!(depths.1 .0, (1, Some(ScopedRegion::Clip(unit()))));
    assert_eq!(depths.1 .1, (2, Some(ScopedRegion::ZIndex(2))));
    assert_eq!(depths.2, 0);
    assert_eq!(
        cx.window.take_frame(),
        vec![
            Primitive::PushRegion(ScopedRegion::Clip(unit())),
            Primitive::PushRegion(ScopedRegion::ZIndex(2)),
            Primitive::PopRegion,
            Primitive::PopRegion,
        ]
    );
}

#[test]
fn content_mask_is_what_the_open_clips_share() {
    let rect = |x: i32, y: i32, w: i32, h: i32| bounds(point(px(x), px(y)), size(px(w), px(h)));
    let mut cx = context();
    cx.with_element_context(|cx: &mut ElementContext| {
        assert_eq!(cx.content_mask(), None);
        cx.with_region(ScopedRegion::Opacity(7), |cx| {
            // A region that is no clip hides nothing.
            assert_eq!(cx.content_mask(), None);
            cx.with_region(ScopedRegion::Clip(rect(0, 0, 100, 100)), |cx| {
                assert_eq!(cx.content_mask(), Some(rect(0, 0, 100, 100)));
                cx.with_region(ScopedRegion::Clip(rect(50, 60, 100, 100)), |cx| {
                    assert_eq!(cx.content_mask(), Some(rect(50, 60, 50, 40)));
                    cx.with_region(ScopedRegion::Clip(rect(500, 500, 1, 1)), |cx| {
                        assert!(cx.content_mask().unwrap().is_empty());
                    });
                });
                assert_eq!(cx.content_mask(), Some(rect(0, 0, 100, 100)));
            });
        });
        assert_eq!(cx.content_mask(), None);
    });
}

#[test]
fn solver_result_of_the_wrong_length_is_refused() {
    let mut cx = context();
    let style = gpui::Style::default();
    cx.window.layout.request_layout(&style, Vec::new());
    cx.window.layout.request_layout(&style, Vec::new());
    assert_eq!(cx.window.layout.resolve(vec![unit()]), Err(gpui::LayoutError::BoundsMismatch));
    assert_eq!(
        cx.window.layout.resolve(vec![unit(), unit(), unit()]),
        Err(gpui::LayoutError::BoundsMismatch)
    );
    assert!(!cx.window.layout.is_resolved());
    assert_eq!(cx.window.layout.resolve(vec![unit(), unit()]), Ok(()));
    assert!(cx.window.layout.is_resolved());
    // A refused result leaves the bounds that were in.
    assert_eq!(cx.window.layout.resolve(Vec::new()), Err(gpui::LayoutError::BoundsMismatch));
    assert!(cx.window.layout.is_resolved());
    cx.window.layout.clear();
    assert_eq!(cx.window.layout.request_count(), 0);
    assert!(!cx.window.layout.is_resolved());
}
