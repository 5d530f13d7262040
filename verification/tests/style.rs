use gpui::{px, size, BoxShadow, Pixels, Point, Rgba, Size, Style, StyleRefinement};

fn red() -> Rgba {
    Rgba { r: 255, g: 0, b: 0, a: 255 }
}

fn blue() -> Rgba {
    Rgba { r: 0, g: 0, b: 255, a: 255 }
}

#[test]
fn default_style_decorates_nothing() {
    let style = Style::default();
    assert_eq!(style.min_size, Size { width: Pixels(0), height: Pixels(0) });
    assert_eq!(style.max_size, Size { width: Pixels(i32::MAX), height: Pixels(i32::MAX) });
    assert_eq!(style.background, Rgba { r: 0, g: 0, b: 0, a: 0 });
    assert_eq!(style.border_width, Pixels(0));
    assert_eq!(style.corner_radius, Pixels(0));
    assert_eq!(style.shadow, BoxShadow::none());
    assert!(!style.clip);
    assert!(!style.has_background());
    assert!(!style.has_border());
    assert!(!style.has_shadow());
}

#[test]
fn empty_override_gives_default_style() {
    let overrides = StyleRefinement::default();
    assert!(overrides.is_empty());
    let mut style = Style::default();
    style.refine(&overrides);
    assert_eq!(style, Style::default());
}

#[test]
fn empty_override_leaves_any_style_unchanged() {
    let base = Style {
        min_size: size(px(1), px(2)),
        max_size: size(px(30), px(40)),
        background: red(),
        border_color: blue(),
        border_width: px(3),
        corner_radius: px(4),
        shadow: BoxShadow { color: blue(), offset: Point { x: px(1), y: px(1) }, blur_radius: px(5) },
        clip: true,
    };
    assert_eq!(base.refined(&StyleRefinement::default()), base);
}

#[test]
fn override_fields_take_precedence_field_by_field() {
    let base = Style {
        min_size: size(px(1), px(2)),
        max_size: size(px(30), px(40)),
        background: red(),
        border_color: red(),
        border_width: px(3),
        corner_radius: px(4),
        shadow: BoxShadow::none(),
        clip: false,
    };
    let overrides = StyleRefinement {
        background: Some(blue()),
        corner_radius: Some(px(9)),
        clip: Some(true),
        ..StyleRefinement::default()
    };
    let effective = base.refined(&overrides);
    // Fields that the record sets come from the record.
    assert_eq!(effective.background, blue());
    assert_eq!(effective.corner_radius, px(9));
    assert!(effective.clip);
    // Fields that it leaves unset come from the base.
    assert_eq!(effective.min_size, size(px(1), px(2)));
    assert_eq!(effective.max_size, size(px(30), px(40)));
    assert_eq!(effective.border_color, red());
    assert_eq!(effective.border_width, px(3));
    assert_eq!(effective.shadow, BoxShadow::none());
}

#[test]
fn cascade_gives_the_same_style_every_time() {
    let overrides = StyleRefinement {
        border_width: Some(px(2)),
        border_color: Some(red()),
        ..StyleRefinement::default()
    };
    let first = Style::default().refined(&overrides);
    let second = Style::default().refined(&overrides);
    assert_eq!(first, second);
    // Laying the record over the result once more changes nothing.
    assert_eq!(first.refined(&overrides), first);
}

#[test]
fn override_can_set_a_field_back_to_its_default_value() {
    let base = Style { clip: true, ..Style::default() };
    let overrides = StyleRefinement { clip: Some(false), ..StyleRefinement::default() };
    assert!(!base.refined(&overrides).clip);
}

#[test]
fn later_record_wins_where_both_set_a_field() {
    let earlier = StyleRefinement {
        background: Some(red()),
        border_width: Some(px(1)),
        ..StyleRefinement::default()
    };
    let later = StyleRefinement {
        background: Some(blue()),
        corner_radius: Some(px(7)),
        ..StyleRefinement::default()
    };
    let merged = earlier.refined(&later);
    assert_eq!(merged.background, Some(blue()));
    assert_eq!(merged.border_width, Some(px(1)));
    assert_eq!(merged.corner_radius, Some(px(7)));
    assert_eq!(merged.min_size, None);
    assert!(!merged.is_empty());
}

#[test]
fn two_records_in_turn_equal_their_merge() {
    let base = Style { border_width: px(5), ..Style::default() };
    let earlier = StyleRefinement { background: Some(red()), ..StyleRefinement::default() };
    let later = StyleRefinement {
        background: Some(blue()),
        clip: Some(true),
        ..StyleRefinement::default()
    };
    let in_turn = base.refined(&earlier).refined(&later);
    let at_once = base.refined(&earlier.refined(&later));
    assert_eq!(in_turn, at_once);
    assert_eq!(in_turn.background, blue());
    assert_eq!(in_turn.border_width, px(5));
}

#[test]
fn decorations_show_only_where_they_leave_a_mark() {
    let filled = Style { background: red(), ..Style::default() };
    assert!(filled.has_background());
    // A border needs both a width and a colour.
    let width_only = Style { border_width: px(2), ..Style::default() };
    assert!(!width_only.has_border());
    let color_only = Style { border_color: red(), ..Style::default() };
    assert!(!color_only.has_border());
    let bordered = Style { border_width: px(2), border_color: red(), ..Style::default() };
    assert!(bordered.has_border());
    let shadowed = Style {
        shadow: BoxShadow { color: blue(), offset: Point::zero(), blur_radius: px(4) },
        ..Style::default()
    };
    assert!(shadowed.has_shadow());
}
