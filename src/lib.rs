//! The interaction core of a grid inventory widget: hover and selection
//! tracking, the repaint pass that follows a selection change, responsive
//! layout offsets, clamped scrolling and the show/hide lifecycle.
//!
//! All lengths are integers in milli-pixels (a thousandth of a pixel); the
//! layout offsets that the widget root receives are exact fractions.

pub mod components;
pub mod style;
pub mod state;
pub mod events;
pub mod interaction;
pub mod tiles;
pub mod visibility;
pub mod reconcile;
pub mod layout;
pub mod scroll;

pub use components::{GridCoordinate, IconComponent, ScrollPanel, UiCameraComponent, UiRootComponent};
pub use style::{Color, Fraction, InventoryStyle, Palette, Val, MAX_GRID_SIDE, MILLI};
pub use state::{cell_in_grid, InventoryState};
pub use events::{
    InventoryEvent, InventoryIconClicked, InventoryIconMouseEnter, InventoryIconMouseExit,
    ResetInventoryIcons, ToggleInventory,
};
pub use interaction::{button_system, IconButton, Interaction};
pub use tiles::InventoryBackgroundTiles;
pub use visibility::{
    hide_inventory, receive_toggle_inventory_events_hidden, receive_toggle_inventory_events_shown,
    show, IconNode, InventoryStates, VisibilityMachine,
};
pub use reconcile::{repaint_all, reset_icons_events, IconCell};
pub use layout::{anchor_offsets, centered_px, on_window_size_changed, RootOffsets, WindowResized};
pub use scroll::{mouse_scroll, scroll_list, MouseScrollUnit, MouseWheel, ScrollList, PX_PER_LINE};
