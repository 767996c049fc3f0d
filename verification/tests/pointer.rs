use chess_board::cursor::{normalize_cursor, BoardGeometry};
use chess_board::selection::{
    ButtonEvent, ButtonTransition, HoveredCell, PointerButton, SelectedCell, SelectionController,
};

/// Quarter world units: the pitch of 77.5 world units is 310 of them.
fn units(world: f32) -> i32 {
    (world * 4.0).floor() as i32
}

fn layout() -> BoardGeometry {
    BoardGeometry::new(units(-310.0), units(-310.0), units(310.0), units(77.5)).unwrap()
}

fn map(x: f32, y: f32) -> Option<(u8, u8)> {
    normalize_cursor(&layout(), (units(x), units(y)))
}

fn press(button: PointerButton) -> ButtonEvent {
    ButtonEvent { button, transition: ButtonTransition::Pressed }
}

fn release(button: PointerButton) -> ButtonEvent {
    ButtonEvent { button, transition: ButtonTransition::Released }
}

/// A position inside the band of positions that map to `(file, rank)`.
fn over(file: u8, rank: u8) -> Option<(i32, i32)> {
    Some((units(-310.0 + 77.5 * (file as f32 + 0.75)), units(-310.0 + 77.5 * (rank as f32 + 0.75))))
}

#[test]
fn geometry_keeps_its_parameters() {
    let g = layout();
    assert_eq!(g.origin(), (-1240, -1240));
    assert_eq!(g.extent(), 1240);
    assert_eq!(g.pitch(), 310);
}

#[test]
fn geometry_needs_a_positive_pitch() {
    assert!(BoardGeometry::new(0, 0, 100, 0).is_none());
    assert!(BoardGeometry::new(0, 0, 100, -5).is_none());
    assert!(BoardGeometry::new(0, 0, 100, 1).is_some());
    assert!(BoardGeometry::new(i32::MIN, i32::MAX, i32::MAX, i32::MAX).is_some());
}

#[test]
fn world_origin_maps_to_three_three() {
    assert_eq!(map(0.0, 0.0), Some((3, 3)));
}

#[test]
fn just_inside_the_right_edge_maps_to_file_seven() {
    assert_eq!(map(309.9, 0.0), Some((7, 3)));
}

#[test]
fn beyond_the_bound_maps_to_nothing() {
    assert_eq!(map(400.0, 0.0), None);
    assert_eq!(map(0.0, 400.0), None);
    assert_eq!(map(-400.0, 0.0), None);
    assert_eq!(map(0.0, -310.5), None);
}

#[test]
fn bounding_square_is_half_open() {
    assert_eq!(map(-310.0, -310.0), Some((0, 0)));
    assert_eq!(map(310.0, 0.0), None);
    assert_eq!(map(0.0, 310.0), None);
    assert_eq!(map(309.75, 309.75), Some((7, 7)));
    assert_eq!(map(-310.25, 0.0), None);
}

#[test]
fn cells_change_at_half_pitches() {
    // (x + 310) / 77.5 reaches 1.5 at x = -193.75, 2.5 at x = -116.25.
    assert_eq!(map(-194.0, 0.0), Some((0, 3)));
    assert_eq!(map(-193.75, 0.0), Some((1, 3)));
    assert_eq!(map(-116.5, 0.0), Some((1, 3)));
    assert_eq!(map(-116.25, 0.0), Some((2, 3)));
    assert_eq!(map(0.0, 38.5), Some((3, 3)));
    assert_eq!(map(0.0, 38.75), Some((3, 4)));
    assert_eq!(map(0.0, 271.0), Some((3, 6)));
    assert_eq!(map(0.0, 271.25), Some((3, 7)));
}

#[test]
fn every_cell_is_reached_once_along_an_axis() {
    let g = layout();
    let mut last: u8 = 0;
    let mut seen = [false; 8];
    for x in -1240..1240 {
        let (file, rank) = normalize_cursor(&g, (x, -1240)).unwrap();
        assert_eq!(rank, 0);
        assert!(file < 8);
        assert!(file >= last);
        assert!(file - last <= 1);
        last = file;
        seen[file as usize] = true;
    }
    assert_eq!(seen, [true; 8]);
}

#[test]
fn mapping_works_in_other_units_and_places() {
    let g = BoardGeometry::new(100, -50, 40, 10).unwrap();
    assert_eq!(normalize_cursor(&g, (100, -50)), Some((0, 0)));
    assert_eq!(normalize_cursor(&g, (114, -35)), Some((0, 1)));
    assert_eq!(normalize_cursor(&g, (115, -36)), Some((1, 0)));
    assert_eq!(normalize_cursor(&g, (179, 29)), Some((7, 7)));
    assert_eq!(normalize_cursor(&g, (180, 0)), None);
    assert_eq!(normalize_cursor(&g, (99, 0)), None);
    assert_eq!(normalize_cursor(&g, (150, 30)), None);
}

#[test]
fn mapping_survives_extreme_values() {
    let g = BoardGeometry::new(i32::MIN, i32::MIN, i32::MAX, i32::MAX).unwrap();
    assert_eq!(normalize_cursor(&g, (i32::MIN, i32::MIN)), Some((0, 0)));
    assert_eq!(normalize_cursor(&g, (i32::MAX - 2, i32::MAX - 2)), Some((1, 1)));
    assert_eq!(normalize_cursor(&g, (i32::MAX - 1, i32::MAX - 2)), None);
    assert_eq!(normalize_cursor(&g, (-1, 0)), Some((0, 0)));
    let h = BoardGeometry::new(i32::MAX, i32::MAX, i32::MIN, 1).unwrap();
    assert_eq!(normalize_cursor(&h, (i32::MAX, i32::MAX)), None);
    let small = BoardGeometry::new(i32::MIN, 0, i32::MAX, 1).unwrap();
    assert_eq!(normalize_cursor(&small, (i32::MAX - 2, 0)), Some((7, 0)));
    assert_eq!(normalize_cursor(&small, (i32::MAX, 0)), None);
}

#[test]
fn helper_positions_lie_over_their_cells() {
    let g = layout();
    for file in 0..8 {
        for rank in 0..8 {
            assert_eq!(normalize_cursor(&g, over(file, rank).unwrap()), Some((file, rank)));
        }
    }
}

#[test]
fn controller_starts_without_hover_or_selection() {
    let controller = SelectionController::new();
    assert_eq!(controller.hovered(), None);
    assert_eq!(controller.selected(), None);
    let other = SelectionController::default();
    assert_eq!(other.hovered(), None);
    assert_eq!(other.selected(), None);
}

#[test]
fn hover_follows_the_pointer() {
    let g = layout();
    let mut controller = SelectionController::new();
    controller.translate_to_hover(&g, Some((units(0.0), units(0.0))));
    assert_eq!(controller.hovered(), Some(HoveredCell(3, 3)));
    controller.translate_to_hover(&g, over(6, 1));
    assert_eq!(controller.hovered(), Some(HoveredCell(6, 1)));
}

#[test]
fn hover_is_cleared_off_the_board_and_off_the_window() {
    let g = layout();
    let mut controller = SelectionController::new();
    controller.translate_to_hover(&g, over(2, 2));
    assert_eq!(controller.hovered(), Some(HoveredCell(2, 2)));
    controller.translate_to_hover(&g, Some((units(400.0), units(0.0))));
    assert_eq!(controller.hovered(), None);
    controller.translate_to_hover(&g, over(2, 2));
    controller.translate_to_hover(&g, None);
    assert_eq!(controller.hovered(), None);
}

#[test]
fn repeated_hover_is_idempotent() {
    let g = layout();
    let mut controller = SelectionController::new();
    controller.update(&g, over(1, 6), &[press(PointerButton::Primary)]);
    let position = Some((units(12.5), units(-100.0)));
    controller.translate_to_hover(&g, position);
    let first = controller.hovered();
    controller.translate_to_hover(&g, position);
    assert_eq!(controller.hovered(), first);
    assert_eq!(first, Some(HoveredCell(3, 2)));
    assert_eq!(controller.selected(), Some(SelectedCell(1, 6)));
}

#[test]
fn primary_press_selects_the_hovered_cell() {
    let g = layout();
    let mut controller = SelectionController::new();
    controller.translate_to_hover(&g, over(4, 0));
    controller.handle_button(press(PointerButton::Primary));
    assert_eq!(controller.selected(), Some(SelectedCell(4, 0)));
    assert_eq!(controller.hovered(), Some(HoveredCell(4, 0)));
}

#[test]
fn press_overwrites_the_selection() {
    let g = layout();
    let mut controller = SelectionController::new();
    controller.update(&g, over(2, 2), &[press(PointerButton::Primary)]);
    assert_eq!(controller.selected(), Some(SelectedCell(2, 2)));
    controller.update(&g, over(5, 5), &[press(PointerButton::Primary)]);
    assert_eq!(controller.selected(), Some(SelectedCell(5, 5)));
}

#[test]
fn press_on_the_selected_cell_keeps_it_selected() {
    let g = layout();
    let mut controller = SelectionController::new();
    controller.update(&g, over(2, 2), &[press(PointerButton::Primary)]);
    controller.update(&g, over(2, 2), &[press(PointerButton::Primary)]);
    assert_eq!(controller.selected(), Some(SelectedCell(2, 2)));
}

#[test]
fn press_without_hover_selects_nothing() {
    let g = layout();
    let mut controller = SelectionController::new();
    controller.handle_button(press(PointerButton::Primary));
    assert_eq!(controller.selected(), None);
    controller.update(&g, Some((units(500.0), units(500.0))), &[press(PointerButton::Primary)]);
    assert_eq!(controller.selected(), None);
    controller.update(&g, None, &[press(PointerButton::Primary)]);
    assert_eq!(controller.selected(), None);
}

#[test]
fn press_without_hover_keeps_the_selection() {
    let g = layout();
    let mut controller = SelectionController::new();
    controller.update(&g, over(2, 2), &[press(PointerButton::Primary)]);
    controller.update(&g, None, &[press(PointerButton::Primary)]);
    assert_eq!(controller.selected(), Some(SelectedCell(2, 2)));
}

#[test]
fn other_events_never_change_the_selection() {
    let g = layout();
    let mut controller = SelectionController::new();
    controller.update(&g, over(2, 2), &[press(PointerButton::Primary)]);
    let others = [
        press(PointerButton::Secondary),
        press(PointerButton::Other),
        release(PointerButton::Primary),
        release(PointerButton::Secondary),
        release(PointerButton::Other),
    ];
    for file in 0..8 {
        for event in others {
            controller.translate_to_hover(&g, over(file, 7 - file));
            controller.handle_button(event);
            assert_eq!(controller.selected(), Some(SelectedCell(2, 2)));
        }
        controller.update(&g, over(file, file), &others);
        assert_eq!(controller.selected(), Some(SelectedCell(2, 2)));
        controller.update(&g, None, &[]);
        assert_eq!(controller.selected(), Some(SelectedCell(2, 2)));
    }
}

#[test]
fn other_events_select_nothing_from_the_start() {
    let g = layout();
    let mut controller = SelectionController::new();
    controller.translate_to_hover(&g, over(1, 1));
    controller.handle_cell_selection(&[
        press(PointerButton::Secondary),
        release(PointerButton::Primary),
        press(PointerButton::Other),
    ]);
    assert_eq!(controller.selected(), None);
}

#[test]
fn one_press_in_a_queue_is_enough() {
    let g = layout();
    let mut controller = SelectionController::new();
    controller.translate_to_hover(&g, over(7, 0));
    controller.handle_cell_selection(&[
        release(PointerButton::Primary),
        press(PointerButton::Secondary),
        press(PointerButton::Primary),
        release(PointerButton::Primary),
    ]);
    assert_eq!(controller.selected(), Some(SelectedCell(7, 0)));
    assert_eq!(controller.hovered(), Some(HoveredCell(7, 0)));
}

#[test]
fn tick_moves_the_hover_before_it_selects() {
    let g = layout();
    let mut controller = SelectionController::new();
    controller.translate_to_hover(&g, over(0, 0));
    controller.update(&g, over(6, 3), &[press(PointerButton::Primary)]);
    assert_eq!(controller.hovered(), Some(HoveredCell(6, 3)));
    assert_eq!(controller.selected(), Some(SelectedCell(6, 3)));
}

#[test]
fn primary_press_is_told_apart() {
    assert!(press(PointerButton::Primary).is_primary_press());
    assert!(!press(PointerButton::Secondary).is_primary_press());
    assert!(!press(PointerButton::Other).is_primary_press());
    assert!(!release(PointerButton::Primary).is_primary_press());
}
