use pacman_core::geometry::TileIndex;
use pacman_core::scent::{light_up_tile, update_tile_scent, Scent, ScentMap};

const T0: u64 = 10_000;

fn tile(col: usize, row: usize) -> TileIndex {
    TileIndex { col, row }
}

#[test]
fn scent_alive_just_before_expiry() {
    let mut m = ScentMap::new();
    light_up_tile(tile(2, 3), 2000, &mut m, T0);
    let lit = update_tile_scent(&mut m, T0 + 1999, 200);
    assert_eq!(lit.len(), 1);
    assert_eq!(lit[0].0, tile(2, 3));
    assert!(lit[0].1 > 0);
}

#[test]
fn scent_gone_at_expiry() {
    let mut m = ScentMap::new();
    light_up_tile(tile(2, 3), 2000, &mut m, T0);
    let lit = update_tile_scent(&mut m, T0 + 2000, 200);
    assert!(lit.is_empty());
    assert_eq!(m.get(tile(2, 3)), None);

    let mut later = ScentMap::new();
    light_up_tile(tile(2, 3), 2000, &mut later, T0);
    assert!(update_tile_scent(&mut later, T0 + 5000, 200).is_empty());
}

#[test]
fn touching_again_resets_timer() {
    let mut m = ScentMap::new();
    light_up_tile(tile(2, 3), 2000, &mut m, T0);
    light_up_tile(tile(2, 3), 2000, &mut m, T0 + 500);
    let lit = update_tile_scent(&mut m, T0 + 2400, 200);
    assert_eq!(lit.len(), 1);
    assert_eq!(lit[0].0, tile(2, 3));
    assert_eq!(m.get(tile(2, 3)), Some(Scent { start_time: T0 + 500, duration: 2000 }));
}

#[test]
fn intensity_values() {
    let mut m = ScentMap::new();
    light_up_tile(tile(1, 1), 2000, &mut m, T0);
    assert_eq!(update_tile_scent(&mut m, T0, 200), vec![(tile(1, 1), 200)]);
    assert_eq!(update_tile_scent(&mut m, T0 + 1000, 200), vec![(tile(1, 1), 100)]);
    assert_eq!(update_tile_scent(&mut m, T0 + 1500, 255), vec![(tile(1, 1), 64)]);
    assert_eq!(update_tile_scent(&mut m, T0 + 1999, 200), vec![(tile(1, 1), 1)]);
}

#[test]
fn intensity_before_start_is_full() {
    let mut m = ScentMap::new();
    light_up_tile(tile(1, 1), 2000, &mut m, T0);
    assert_eq!(update_tile_scent(&mut m, T0 - 5, 200), vec![(tile(1, 1), 200)]);
}

#[test]
fn zero_duration_expires_at_once() {
    let mut m = ScentMap::new();
    light_up_tile(tile(4, 4), 0, &mut m, T0);
    assert!(update_tile_scent(&mut m, T0, 200).is_empty());
}

#[test]
fn stationary_actor_holds_one_entry() {
    let mut m = ScentMap::new();
    for i in 0..50u64 {
        light_up_tile(tile(7, 7), 2000, &mut m, T0 + i * 16);
    }
    let lit = update_tile_scent(&mut m, T0 + 50 * 16, 200);
    assert_eq!(lit.len(), 1);
}

#[test]
fn sweep_keeps_only_live_tiles() {
    let mut m = ScentMap::new();
    light_up_tile(tile(1, 1), 2000, &mut m, T0);
    light_up_tile(tile(2, 1), 2000, &mut m, T0 + 1000);
    light_up_tile(tile(3, 1), 2000, &mut m, T0 + 2000);
    let lit = update_tile_scent(&mut m, T0 + 2500, 200);
    assert_eq!(lit, vec![(tile(2, 1), 50), (tile(3, 1), 150)]);
    assert_eq!(m.get(tile(1, 1)), None);
    assert_eq!(m.get(tile(2, 1)), Some(Scent { start_time: T0 + 1000, duration: 2000 }));
}

#[test]
fn second_sweep_reemits_nothing_expired() {
    let mut m = ScentMap::new();
    light_up_tile(tile(1, 1), 100, &mut m, T0);
    light_up_tile(tile(2, 2), 2000, &mut m, T0);
    let first = update_tile_scent(&mut m, T0 + 500, 200);
    let second = update_tile_scent(&mut m, T0 + 500, 200);
    assert_eq!(first, vec![(tile(2, 2), 150)]);
    assert_eq!(first, second);
}

#[test]
fn empty_map_sweeps_to_nothing() {
    let mut m = ScentMap::new();
    assert!(update_tile_scent(&mut m, T0, 200).is_empty());
    assert_eq!(m.get(tile(0, 0)), None);
}
