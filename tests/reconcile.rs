use bevy_inventory_system::{
    button_system, repaint_all, reset_icons_events, GridCoordinate, IconButton, IconCell,
    IconComponent, Interaction, InventoryState, InventoryStyle, Palette, ResetInventoryIcons,
};

fn grid(rows: i32, columns: i32) -> Vec<IconCell> {
    let mut cells = Vec::new();
    for x in 0..rows {
        for y in 0..columns {
            cells.push(IconCell { icon: IconComponent::new(x, y), palette: Palette::Normal });
        }
    }
    cells
}

#[test]
fn reset_repaints_every_cell_from_the_state() {
    let mut state = InventoryState::default();
    state.set_selected_icon(Some(GridCoordinate { x: 1, y: 0 }));
    state.set_hovered_icon(Some(GridCoordinate { x: 0, y: 1 }));
    let mut cells = grid(2, 2);
    cells[3].palette = Palette::Selected;
    reset_icons_events(&vec![ResetInventoryIcons], &state, &mut cells);
    let palettes: Vec<Palette> = cells.iter().map(|c| c.palette).collect();
    assert_eq!(
        palettes,
        vec![Palette::Normal, Palette::Hover, Palette::Selected, Palette::Normal]
    );
}

#[test]
fn selection_wins_over_hover_in_the_repaint() {
    let mut state = InventoryState::default();
    state.set_selected_icon(Some(GridCoordinate { x: 0, y: 0 }));
    state.set_hovered_icon(Some(GridCoordinate { x: 0, y: 0 }));
    let mut cells = grid(1, 2);
    repaint_all(&state, &mut cells);
    assert_eq!(cells[0].palette, Palette::Selected);
    assert_eq!(cells[1].palette, Palette::Normal);
}

#[test]
fn no_reset_request_leaves_cells_alone() {
    let state = InventoryState::default();
    let mut cells = grid(2, 2);
    cells[2].palette = Palette::Hover;
    let before = cells.clone();
    reset_icons_events(&Vec::new(), &state, &mut cells);
    assert_eq!(cells, before);
}

#[test]
fn repainting_twice_changes_nothing_more() {
    let mut state = InventoryState::default();
    state.set_selected_icon(Some(GridCoordinate { x: 2, y: 1 }));
    state.set_hovered_icon(Some(GridCoordinate { x: 0, y: 2 }));
    let mut cells = grid(3, 3);
    cells[4].palette = Palette::Selected;
    repaint_all(&state, &mut cells);
    let once = cells.clone();
    repaint_all(&state, &mut cells);
    assert_eq!(cells, once);
    let mut many = grid(3, 3);
    reset_icons_events(&vec![ResetInventoryIcons, ResetInventoryIcons], &state, &mut many);
    assert_eq!(many, once);
}

#[test]
fn exactly_one_cell_is_selected_after_presses() {
    let style = InventoryStyle::default().with_grid(3, 4);
    let mut state = InventoryState::default();
    let mut cells = grid(3, 4);
    for (x, y) in [(0, 0), (2, 3), (1, 2)] {
        let mut buttons = vec![IconButton {
            icon: IconComponent::new(x, y),
            interaction: Interaction::Pressed,
            palette: Palette::Normal,
        }];
        let events = button_system(&style, &mut state, &mut buttons);
        let resets = events.len() - 1;
        reset_icons_events(&vec![ResetInventoryIcons; resets], &state, &mut cells);
        let selected: Vec<GridCoordinate> = cells
            .iter()
            .filter(|c| c.palette == Palette::Selected)
            .map(|c| c.icon.get_grid_position())
            .collect();
        assert_eq!(selected, vec![GridCoordinate { x, y }]);
    }
}
