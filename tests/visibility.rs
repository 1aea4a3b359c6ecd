use bevy_inventory_system::{
    hide_inventory, receive_toggle_inventory_events_hidden, receive_toggle_inventory_events_shown,
    show, GridCoordinate, InventoryBackgroundTiles, InventoryState, InventoryStates,
    InventoryStyle, ToggleInventory, VisibilityMachine,
};

#[test]
fn show_builds_one_cell_per_row_and_column() {
    let style = InventoryStyle::default();
    let tiles = InventoryBackgroundTiles::default();
    let mut state = InventoryState::default();
    let cells = show(&style, &mut state, &tiles).expect("a hidden widget is built");
    assert!(state.is_shown());
    assert_eq!(cells.len(), 48);
    for (k, cell) in cells.iter().enumerate() {
        let x = (k / 8) as i32;
        let y = (k % 8) as i32;
        assert_eq!(cell.icon.get_grid_position(), GridCoordinate { x, y });
        assert_eq!(cell.top, 96_000 * x as u64 + 5_000);
        assert_eq!(cell.left, 96_000 * y as u64 + 5_000);
        assert_eq!(cell.width, 91_000);
        assert_eq!(cell.height, 91_000);
        assert_eq!(cell.border, 2_000);
        assert!((0..tiles.len()).any(|i| tiles.tile(i) == &cell.tile));
    }
}

#[test]
fn showing_twice_builds_a_single_grid() {
    let style = InventoryStyle::default().with_grid(2, 3);
    let tiles = InventoryBackgroundTiles::default();
    let mut state = InventoryState::default();
    let first = show(&style, &mut state, &tiles);
    let after_first = state;
    let second = show(&style, &mut state, &tiles);
    assert_eq!(first.map(|c| c.len()), Some(6));
    assert!(second.is_none());
    assert_eq!(state, after_first);
}

#[test]
fn hiding_a_hidden_widget_does_nothing() {
    let mut state = InventoryState::default();
    assert!(!hide_inventory(&mut state));
    assert!(!state.is_shown());
    assert_eq!(state, InventoryState::default());
}

#[test]
fn hiding_clears_selection_and_hover() {
    let style = InventoryStyle::default();
    let tiles = InventoryBackgroundTiles::default();
    let mut state = InventoryState::default();
    let _ = show(&style, &mut state, &tiles);
    state.set_selected_icon(Some(GridCoordinate { x: 1, y: 1 }));
    state.set_hovered_icon(Some(GridCoordinate { x: 2, y: 2 }));
    assert!(hide_inventory(&mut state));
    assert!(!state.is_shown());
    assert_eq!(state.get_selected_icon(), None);
    assert_eq!(state.get_hovered_icon(), None);
    assert!(!hide_inventory(&mut state));
}

#[test]
fn toggle_readers_request_the_other_state() {
    let mut next = None;
    receive_toggle_inventory_events_shown(&Vec::new(), &mut next);
    assert_eq!(next, None);
    receive_toggle_inventory_events_shown(&vec![ToggleInventory], &mut next);
    assert_eq!(next, Some(InventoryStates::Hidden));
    receive_toggle_inventory_events_hidden(&vec![ToggleInventory, ToggleInventory], &mut next);
    assert_eq!(next, Some(InventoryStates::Shown));
}

#[test]
fn two_toggles_one_pass_apart_come_back() {
    let mut machine = VisibilityMachine::new();
    assert_eq!(machine.current, InventoryStates::default());
    assert_eq!(machine.step(&vec![ToggleInventory]), None);
    assert_eq!(machine.current, InventoryStates::Hidden);
    assert_eq!(machine.step(&vec![ToggleInventory]), Some(InventoryStates::Shown));
    assert_eq!(machine.current, InventoryStates::Shown);
    assert_eq!(machine.step(&Vec::new()), Some(InventoryStates::Hidden));
    assert_eq!(machine.current, InventoryStates::Hidden);
    assert_eq!(machine.pending, None);
}

#[test]
fn a_transition_commits_once() {
    let mut machine = VisibilityMachine::new();
    machine.pending = Some(InventoryStates::Hidden);
    assert_eq!(machine.apply_transition(), None);
    machine.pending = Some(InventoryStates::Shown);
    assert_eq!(machine.apply_transition(), Some(InventoryStates::Shown));
    assert_eq!(machine.apply_transition(), None);
}

#[test]
fn toggling_twice_through_show_and_hide_restores_visibility() {
    let style = InventoryStyle::default();
    let tiles = InventoryBackgroundTiles::default();
    let mut machine = VisibilityMachine::new();
    let mut state = InventoryState::default();
    let mut grids = 0;
    let mut frame = |machine: &mut VisibilityMachine, state: &mut InventoryState, toggles: usize| {
        match machine.step(&vec![ToggleInventory; toggles]) {
            Some(InventoryStates::Shown) => {
                if let Some(cells) = show(&style, state, &tiles) {
                    assert_eq!(cells.len(), 48);
                    grids += 1;
                }
            }
            Some(InventoryStates::Hidden) => {
                hide_inventory(state);
            }
            None => {}
        }
    };
    frame(&mut machine, &mut state, 1);
    assert!(!state.is_shown());
    frame(&mut machine, &mut state, 1);
    assert!(state.is_shown());
    frame(&mut machine, &mut state, 0);
    assert!(!state.is_shown());
    assert_eq!(machine.current, InventoryStates::Hidden);
    drop(frame);
    assert_eq!(grids, 1);
}
