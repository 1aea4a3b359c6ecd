use bevy_inventory_system::{cell_in_grid, InventoryStyle};
use bevy_inventory_system::{
    GridCoordinate, IconComponent, InventoryBackgroundTiles, InventoryIconClicked,
    InventoryIconMouseEnter, InventoryIconMouseExit, InventoryState, Fraction, ScrollPanel,
};

#[test]
fn icon_keeps_its_grid_position() {
    let icon = IconComponent::new(1, 2);
    assert_eq!(icon.get_grid_position(), GridCoordinate { x: 1, y: 2 });
}

#[test]
fn scroll_panel_starts_at_zero() {
    let panel = ScrollPanel::default();
    assert_eq!(panel.x, 0);
    assert_eq!(panel.y, 0);
}

#[test]
fn events_carry_their_coordinates() {
    let clicked = InventoryIconClicked::new(5, 10);
    assert_eq!((clicked.x(), clicked.y()), (5, 10));
    let entered = InventoryIconMouseEnter::new(3, 7);
    assert_eq!((entered.x(), entered.y()), (3, 7));
    let exited = InventoryIconMouseExit::new(2, 8);
    assert_eq!((exited.x(), exited.y()), (2, 8));
}

#[test]
fn state_accessors() {
    let mut state = InventoryState::default();
    assert_eq!(state.get_left(), Fraction::whole(0));
    assert_eq!(state.get_top(), Fraction::whole(0));
    assert!(state.get_selected_icon().is_none());
    assert!(state.get_hovered_icon().is_none());
    state.set_left(Fraction::whole(5));
    state.set_top(Fraction::whole(4));
    assert_eq!(state.get_left(), Fraction::whole(5));
    assert_eq!(state.get_top(), Fraction::whole(4));
    let v = GridCoordinate { x: 1, y: 2 };
    state.set_selected_icon(Some(v));
    state.set_hovered_icon(Some(v));
    assert_eq!(state.get_selected_icon(), Some(v));
    assert_eq!(state.get_hovered_icon(), Some(v));
    state.set_is_shown(true);
    assert!(state.is_shown());
    state.set_is_shown(false);
    assert!(!state.is_shown());
}

#[test]
fn default_tiles_are_the_three_grunge_squares() {
    let tiles = InventoryBackgroundTiles::default();
    assert_eq!(tiles.len(), 3);
    assert_eq!(
        tiles.tile(0),
        "Apocalypse/HUD/Sprites/HUD/SPR_Background_Square_Tile_Grunge_Sml_01.png"
    );
    assert_eq!(
        tiles.tile(2),
        "Apocalypse/HUD/Sprites/HUD/SPR_Background_Square_Tile_Grunge_Sml_LeftRight.png"
    );
}

#[test]
fn random_tile_is_one_of_the_tiles() {
    let tiles = InventoryBackgroundTiles::default();
    for _ in 0..200 {
        let t = tiles.get_random_tile_small();
        assert!((0..tiles.len()).any(|i| tiles.tile(i) == t));
    }
}

#[test]
fn grid_membership_and_state_consistency() {
    let style = InventoryStyle::default();
    assert!(cell_in_grid(&style, GridCoordinate { x: 0, y: 0 }));
    assert!(cell_in_grid(&style, GridCoordinate { x: 5, y: 7 }));
    assert!(!cell_in_grid(&style, GridCoordinate { x: 6, y: 0 }));
    assert!(!cell_in_grid(&style, GridCoordinate { x: 0, y: 8 }));
    assert!(!cell_in_grid(&style, GridCoordinate { x: -1, y: 3 }));
    let mut state = InventoryState::default();
    assert!(state.fits(&style));
    state.set_hovered_icon(Some(GridCoordinate { x: 2, y: 9 }));
    assert!(!state.fits(&style));
}
