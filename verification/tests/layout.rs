use term_bar::data::{Direction, InteractKind, MouseButton, Position32};
use term_bar::tui::layout::{
    center, Area, Axis, MouseEvent, MouseEventKind, Position, RenderedLayout, Size, Sizes,
};
use term_bar::tui::InteractTag;

fn area(x: u16, y: u16, w: u16, h: u16) -> Area {
    Area { pos: Position { x, y }, size: Size { w, h } }
}

fn event(kind: MouseEventKind, column: u16, row: u16) -> MouseEvent {
    MouseEvent { kind, column, row, modifiers: 0 }
}

const FONT: Size = Size { w: 8, h: 16 };

#[test]
fn overlapping_areas_resolve_to_the_first() {
    let mut layout = RenderedLayout::default();
    layout.insert(area(0, 0, 10, 2), InteractTag::from_bytes(b"A"));
    layout.insert(area(5, 0, 10, 2), InteractTag::from_bytes(b"B"));
    let hit = layout.interpret_mouse_event(event(MouseEventKind::Moved, 7, 1), FONT).unwrap();
    assert_eq!(hit.target.unwrap().as_bytes(), b"A");
    assert_eq!(hit.location, Position32 { x: 40, y: 16 });
    assert_eq!(hit.kind, InteractKind::Hover);
}

#[test]
fn the_second_area_is_hit_where_the_first_does_not_reach() {
    let mut layout = RenderedLayout::default();
    layout.insert(area(0, 0, 10, 2), InteractTag::from_bytes(b"A"));
    layout.insert(area(5, 0, 10, 2), InteractTag::from_bytes(b"B"));
    let hit = layout.interpret_mouse_event(event(MouseEventKind::Moved, 12, 0), FONT).unwrap();
    assert_eq!(hit.target.unwrap().as_bytes(), b"B");
    // corner 5 * 8 = 40, half the width 10 * 8 / 2 = 40
    assert_eq!(hit.location, Position32 { x: 80, y: 16 });
}

#[test]
fn a_point_outside_every_area_has_no_target() {
    let mut layout = RenderedLayout::default();
    layout.insert(area(0, 0, 10, 2), InteractTag::from_bytes(b"A"));
    let hit = layout.interpret_mouse_event(event(MouseEventKind::Moved, 30, 4), FONT).unwrap();
    assert!(hit.target.is_none());
    assert_eq!(hit.location, Position32 { x: 240, y: 64 });
}

#[test]
fn an_empty_layout_still_answers() {
    let mut layout = RenderedLayout::default();
    let hit = layout
        .interpret_mouse_event(event(MouseEventKind::Down(MouseButton::Left), 0, 0), FONT)
        .unwrap();
    assert!(hit.target.is_none());
    assert_eq!(hit.location, Position32 { x: 0, y: 0 });
    assert_eq!(hit.kind, InteractKind::Click(MouseButton::Left));
}

#[test]
fn release_and_drag_are_no_interactions() {
    let mut layout = RenderedLayout::default();
    layout.insert(area(0, 0, 10, 2), InteractTag::from_bytes(b"A"));
    for button in [MouseButton::Left, MouseButton::Right, MouseButton::Middle] {
        assert!(layout.interpret_mouse_event(event(MouseEventKind::Up(button), 1, 1), FONT).is_none());
        assert!(layout.interpret_mouse_event(event(MouseEventKind::Drag(button), 1, 1), FONT).is_none());
    }
    assert_eq!(layout.widgets.len(), 1);
}

#[test]
fn the_modifier_keys_bear_on_nothing() {
    let mut layout = RenderedLayout::default();
    layout.insert(area(0, 0, 10, 2), InteractTag::from_bytes(b"A"));
    let plain = layout.interpret_mouse_event(event(MouseEventKind::ScrollUp, 1, 1), FONT).unwrap();
    let held = MouseEvent { kind: MouseEventKind::ScrollUp, column: 1, row: 1, modifiers: 0b0000_0111 };
    let with_keys = layout.interpret_mouse_event(held, FONT).unwrap();
    assert_eq!(plain.kind, with_keys.kind);
    assert_eq!(plain.location, with_keys.location);
    assert_eq!(plain.target, with_keys.target);
}

#[test]
fn each_event_kind_maps_to_its_interaction() {
    let mut layout = RenderedLayout::default();
    let cases = [
        (MouseEventKind::Down(MouseButton::Right), InteractKind::Click(MouseButton::Right)),
        (MouseEventKind::Down(MouseButton::Middle), InteractKind::Click(MouseButton::Middle)),
        (MouseEventKind::Moved, InteractKind::Hover),
        (MouseEventKind::ScrollDown, InteractKind::Scroll(Direction::Down)),
        (MouseEventKind::ScrollUp, InteractKind::Scroll(Direction::Up)),
        (MouseEventKind::ScrollLeft, InteractKind::Scroll(Direction::Left)),
        (MouseEventKind::ScrollRight, InteractKind::Scroll(Direction::Right)),
    ];
    for (kind, expected) in cases {
        let hit = layout.interpret_mouse_event(event(kind, 3, 3), FONT).unwrap();
        assert_eq!(hit.kind, expected);
    }
}

#[test]
fn the_centre_rounds_half_a_pixel_down() {
    // extent 3 cells of 5 pixels: 15 / 2 = 7
    assert_eq!(center(area(2, 1, 3, 1), Size { w: 5, h: 7 }), Position32 { x: 17, y: 10 });
}

#[test]
fn the_centre_is_held_to_the_u32_range() {
    let far = area(u16::MAX, u16::MAX, u16::MAX, 0);
    let at = center(far, Size { w: u16::MAX, h: u16::MAX });
    // 65535 * 65535 + 65535 * 65535 / 2 does not fit
    assert_eq!(at.x, u32::MAX);
    assert_eq!(at.y, 65535 * 65535);
}

#[test]
fn an_area_contains_its_corners_and_nothing_beyond() {
    let a = area(2, 3, 4, 5);
    assert!(a.contains(Position { x: 2, y: 3 }));
    assert!(a.contains(Position { x: 5, y: 7 }));
    assert!(!a.contains(Position { x: 6, y: 7 }));
    assert!(!a.contains(Position { x: 5, y: 8 }));
    assert!(!a.contains(Position { x: 1, y: 3 }));
    assert!(!a.contains(Position { x: 2, y: 2 }));
}

#[test]
fn an_empty_area_contains_no_cell() {
    assert!(!area(2, 3, 0, 5).contains(Position { x: 2, y: 3 }));
    assert!(!area(2, 3, 4, 0).contains(Position { x: 2, y: 3 }));
    assert!(!Area::default().contains(Position::default()));
}

#[test]
fn an_area_at_the_edge_of_the_range_contains_the_last_cell() {
    let a = area(u16::MAX, u16::MAX, 1, 1);
    assert!(a.contains(Position { x: u16::MAX, y: u16::MAX }));
    let wide = area(u16::MAX - 1, 0, u16::MAX, 1);
    assert!(wide.contains(Position { x: u16::MAX, y: 0 }));
}

#[test]
fn the_last_row_and_column_of_an_area() {
    let a = area(2, 3, 4, 5);
    assert_eq!(a.x_right(), 5);
    assert_eq!(a.y_bottom(), 7);
    assert_eq!(Area::default().x_right(), 0);
    assert_eq!(Area::default().y_bottom(), 0);
    assert_eq!(area(7, 9, 0, 0).x_right(), 6);
    assert_eq!(area(u16::MAX, u16::MAX, 10, 10).x_right(), u16::MAX - 1);
    assert_eq!(area(u16::MAX, u16::MAX, 10, 10).y_bottom(), u16::MAX - 1);
}

#[test]
fn a_coordinate_is_read_and_written_by_axis() {
    let mut p = Position { x: 1, y: 2 };
    assert_eq!(*p.get_mut(Axis::Horizontal), 1);
    *p.get_mut(Axis::Vertical) = 9;
    assert_eq!(p, Position { x: 1, y: 9 });
    let mut s = Size { w: 3, h: 4 };
    *s.get_mut(Axis::Horizontal) += 10;
    assert_eq!(s, Size { w: 13, h: 4 });
    assert_eq!(s.get(Axis::Horizontal), 13);
    assert_eq!(s.get(Axis::Vertical), 4);
}

#[test]
fn the_defaults_are_zero() {
    assert_eq!(Position::default(), Position { x: 0, y: 0 });
    assert_eq!(Size::default(), Size { w: 0, h: 0 });
    assert_eq!(Area::default(), area(0, 0, 0, 0));
    assert!(RenderedLayout::default().widgets.is_empty());
}

#[test]
fn insert_keeps_the_order_of_recording() {
    let mut layout = RenderedLayout::default();
    layout.insert(area(0, 0, 1, 1), InteractTag::from_bytes(b"first"));
    layout.insert(area(1, 0, 1, 1), InteractTag::from_bytes(b"second"));
    assert_eq!(layout.widgets.len(), 2);
    assert_eq!(layout.widgets[0].0, area(0, 0, 1, 1));
    assert_eq!(layout.widgets[0].1.as_bytes(), b"first");
    assert_eq!(layout.widgets[1].1.as_bytes(), b"second");
}

#[test]
fn the_font_cell_is_the_window_divided_by_its_cells() {
    let sizes = Sizes { cell_size: Size { w: 80, h: 24 }, pix_size: Size { w: 645, h: 390 } };
    assert_eq!(sizes.font_size(), Size { w: 8, h: 16 });
}

#[test]
fn a_window_without_pixel_extent_has_no_sizes() {
    assert_eq!(Sizes::from_window(24, 80, 0, 384), None);
    assert_eq!(Sizes::from_window(24, 80, 640, 0), None);
    assert_eq!(
        Sizes::from_window(24, 80, 640, 384),
        Some(Sizes { cell_size: Size { w: 80, h: 24 }, pix_size: Size { w: 640, h: 384 } })
    );
}
