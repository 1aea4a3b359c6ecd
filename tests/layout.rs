use bevy_inventory_system::{anchor_offsets, centered_px};
use bevy_inventory_system::{
    on_window_size_changed, Fraction, InventoryState, InventoryStyle, RootOffsets, Val,
    WindowResized,
};

fn value(f: Fraction) -> f64 {
    f.num as f64 / f.den as f64
}

fn percent(v: Val) -> f64 {
    match v {
        Val::Percent(f) => value(f),
        other => panic!("not a percentage: {:?}", other),
    }
}

fn root() -> RootOffsets {
    RootOffsets { top: Val::Auto, left: Val::Auto }
}

fn small_grid() -> InventoryStyle {
    InventoryStyle::default().with_grid(4, 6).with_icon_metrics(64_000, 2_500, 2_500, 2_000)
}

#[test]
fn auto_mode_centers_the_grid() {
    let style = small_grid();
    let mut state = InventoryState::default();
    let mut roots = vec![root()];
    let events = vec![WindowResized { width: 800_000, height: 600_000 }];
    on_window_size_changed(&style, &mut state, &events, &mut roots);
    assert!((percent(roots[0].left) - 26.0).abs() < 0.01);
    assert!((percent(roots[0].top) - 28.67).abs() < 0.01);
    assert!((value(state.get_left()) - 208.0).abs() < 1e-9);
    assert!((value(state.get_top()) - 172.0).abs() < 1e-9);
}

#[test]
fn auto_mode_keeps_negative_offsets() {
    let style = small_grid();
    let mut state = InventoryState::default();
    let mut roots = vec![root()];
    let events = vec![WindowResized { width: 300_000, height: 200_000 }];
    on_window_size_changed(&style, &mut state, &events, &mut roots);
    assert!((percent(roots[0].left) - (-14.0)).abs() < 1e-9);
    assert!((percent(roots[0].top) - (-14.0)).abs() < 1e-9);
    assert!((value(state.get_left()) - (-42.0)).abs() < 1e-9);
}

#[test]
fn the_last_resize_of_a_pass_wins() {
    let style = small_grid();
    let mut state = InventoryState::default();
    let mut roots = vec![root(), root()];
    let events = vec![
        WindowResized { width: 1_000_000, height: 1_000_000 },
        WindowResized { width: 800_000, height: 600_000 },
    ];
    on_window_size_changed(&style, &mut state, &events, &mut roots);
    for r in &roots {
        assert!((percent(r.left) - 26.0).abs() < 0.01);
    }
}

#[test]
fn percent_mode_uses_the_literal_percentage() {
    let style = small_grid().with_positioning(Val::Percent(Fraction::whole(10)));
    let mut state = InventoryState::default();
    let mut roots = vec![root()];
    let events = vec![WindowResized { width: 800_000, height: 600_000 }];
    on_window_size_changed(&style, &mut state, &events, &mut roots);
    assert_eq!(
        roots[0],
        RootOffsets {
            top: Val::Percent(Fraction::whole(10)),
            left: Val::Percent(Fraction::whole(10))
        }
    );
    assert_eq!(state, InventoryState::default());
}

#[test]
fn pixel_mode_uses_the_literal_length() {
    let style = small_grid().with_positioning(Val::Px(Fraction::whole(40)));
    let mut state = InventoryState::default();
    let mut roots = vec![root()];
    let events = vec![WindowResized { width: 800_000, height: 600_000 }];
    on_window_size_changed(&style, &mut state, &events, &mut roots);
    assert_eq!(
        roots[0],
        RootOffsets { top: Val::Px(Fraction::whole(40)), left: Val::Px(Fraction::whole(40)) }
    );
}

#[test]
fn other_modes_do_nothing() {
    let style = small_grid().with_positioning(Val::Vw(Fraction::whole(5)));
    let mut state = InventoryState::default();
    let mut roots = vec![root()];
    let events = vec![WindowResized { width: 800_000, height: 600_000 }];
    on_window_size_changed(&style, &mut state, &events, &mut roots);
    assert_eq!(roots, vec![root()]);
    assert_eq!(state, InventoryState::default());
}

#[test]
fn without_a_root_the_state_still_gets_the_offsets() {
    let style = small_grid();
    let mut state = InventoryState::default();
    let mut roots: Vec<RootOffsets> = Vec::new();
    let events = vec![WindowResized { width: 800_000, height: 600_000 }];
    on_window_size_changed(&style, &mut state, &events, &mut roots);
    assert!((value(state.get_left()) - 208.0).abs() < 1e-9);
    assert!((value(state.get_top()) - 172.0).abs() < 1e-9);
}

#[test]
fn without_a_resize_nothing_changes() {
    let style = small_grid();
    let mut state = InventoryState::default();
    let mut roots = vec![root()];
    on_window_size_changed(&style, &mut state, &Vec::new(), &mut roots);
    assert_eq!(state, InventoryState::default());
    assert_eq!(roots, vec![root()]);
}

#[test]
fn fractional_cells_count_in_full() {
    let style = small_grid().with_icon_metrics(64_500, 2_500, 2_500, 2_000);
    let mut state = InventoryState::default();
    let mut roots = vec![root()];
    let events = vec![WindowResized { width: 800_000, height: 600_000 }];
    on_window_size_changed(&style, &mut state, &events, &mut roots);
    assert!((percent(roots[0].left) - 25.8125).abs() < 1e-9);
    assert!((value(state.get_left()) - 206.5).abs() < 1e-9);
}

#[test]
fn sub_pixel_cells_still_stay_below_half() {
    let style = small_grid().with_icon_metrics(900, 100, 100, 0);
    let mut state = InventoryState::default();
    let mut roots = vec![root()];
    let events = vec![WindowResized { width: 800_000, height: 600_000 }];
    on_window_size_changed(&style, &mut state, &events, &mut roots);
    assert!(percent(roots[0].left) < 50.0);
}

#[test]
fn anchor_and_pixel_offsets_are_exact() {
    let style = small_grid();
    let ev = WindowResized { width: 800_000, height: 600_000 };
    assert_eq!(
        anchor_offsets(&style, ev),
        Some(RootOffsets {
            top: Val::Percent(Fraction { num: 17_200_000, den: 600_000 }),
            left: Val::Percent(Fraction { num: 20_800_000, den: 800_000 }),
        })
    );
    assert_eq!(
        centered_px(&style, ev),
        (Fraction { num: 416_000, den: 2000 }, Fraction { num: 344_000, den: 2000 })
    );
}
