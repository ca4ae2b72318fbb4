use topdown_rpg::states::{next_phase, on_sprite_report, AppState, LoadProgress, PhaseEvent};
use topdown_rpg::tilemap::{glyph_tile, is_ascii_sheet_index, layout_ascii_map, MapTile};

fn lines(text: &[&str]) -> Vec<Vec<char>> {
    text.iter().map(|l| l.chars().collect()).collect()
}

#[test]
fn map_tiles_in_reading_order() {
    let tiles = layout_ascii_map(&lines(&["#.", "", "a#b"]));
    assert_eq!(
        tiles,
        vec![
            MapTile { column: 0, row: 0, sprite_index: 35, collider: true },
            MapTile { column: 1, row: 0, sprite_index: 46, collider: false },
            MapTile { column: 0, row: 2, sprite_index: 97, collider: false },
            MapTile { column: 1, row: 2, sprite_index: 35, collider: true },
            MapTile { column: 2, row: 2, sprite_index: 98, collider: false },
        ]
    );
}

#[test]
fn empty_map_has_no_tiles() {
    assert!(layout_ascii_map(&Vec::new()).is_empty());
    assert!(layout_ascii_map(&lines(&["", ""])).is_empty());
}

#[test]
fn one_tile_per_character_and_walls_only_at_hashes() {
    let text = lines(&["####", "#..#", "#..#", "####"]);
    let tiles = layout_ascii_map(&text);
    assert_eq!(tiles.len(), 16);
    for t in &tiles {
        let glyph = text[t.row][t.column];
        assert_eq!(t.sprite_index, glyph as usize);
        assert_eq!(t.collider, glyph == '#');
    }
    assert_eq!(tiles.iter().filter(|t| t.collider).count(), 12);
}

#[test]
fn glyph_tile_uses_the_code_point() {
    assert_eq!(
        glyph_tile(4, 7, 'A'),
        MapTile { column: 4, row: 7, sprite_index: 65, collider: false }
    );
    assert_eq!(glyph_tile(0, 0, 'é').sprite_index, 233);
    assert_eq!(glyph_tile(0, 0, '€').sprite_index, 0x20ac);
}

#[test]
fn ascii_sheet_holds_256_glyphs() {
    assert!(is_ascii_sheet_index(0));
    assert!(is_ascii_sheet_index(255));
    assert!(!is_ascii_sheet_index(256));
    assert!(!is_ascii_sheet_index(0x20ac));
}

#[test]
fn game_starts_loading() {
    assert_eq!(AppState::default(), AppState::Preload);
}

#[test]
fn phases_move_forward_one_at_a_time() {
    let s = next_phase(AppState::Preload, PhaseEvent::SpritesLoaded);
    assert_eq!(s, AppState::Setup);
    let s = next_phase(s, PhaseEvent::SpritesLoaded);
    assert_eq!(s, AppState::Setup);
    let s = next_phase(s, PhaseEvent::SetupDone);
    assert_eq!(s, AppState::InGame);
    assert_eq!(next_phase(s, PhaseEvent::SpritesLoaded), AppState::InGame);
    assert_eq!(next_phase(s, PhaseEvent::SetupDone), AppState::InGame);
}

#[test]
fn setup_before_loading_is_ignored() {
    assert_eq!(next_phase(AppState::Preload, PhaseEvent::SetupDone), AppState::Preload);
    assert_eq!(next_phase(AppState::Finished, PhaseEvent::SetupDone), AppState::Finished);
}

#[test]
fn loading_ends_only_when_every_folder_has_loaded() {
    let mut progress = LoadProgress::new(4);
    assert_eq!(progress.loaded, vec![false; 4]);
    assert!(!progress.all_loaded());
    let phase = on_sprite_report(AppState::Preload, &mut progress, &vec![true, false, false, false]);
    assert_eq!(phase, AppState::Preload);
    let phase = on_sprite_report(phase, &mut progress, &vec![false, false, true, false]);
    assert_eq!(phase, AppState::Preload);
    let phase = on_sprite_report(phase, &mut progress, &vec![false, false, false, false]);
    assert_eq!(phase, AppState::Preload);
    let phase = on_sprite_report(phase, &mut progress, &vec![false, true, false, true]);
    assert_eq!(phase, AppState::Setup);
    assert_eq!(progress.loaded, vec![true; 4]);
    assert!(progress.all_loaded());
}

#[test]
fn a_folder_reported_twice_counts_once() {
    let mut progress = LoadProgress::new(2);
    let phase = on_sprite_report(AppState::Preload, &mut progress, &vec![true, false]);
    let phase = on_sprite_report(phase, &mut progress, &vec![true, false]);
    assert_eq!(phase, AppState::Preload);
    assert_eq!(progress.loaded, vec![true, false]);
}

#[test]
fn one_event_may_report_every_folder() {
    let mut progress = LoadProgress::new(3);
    let phase = on_sprite_report(AppState::Preload, &mut progress, &vec![true, true, true]);
    assert_eq!(phase, AppState::Setup);
}

#[test]
fn reports_outside_loading_are_ignored() {
    let mut progress = LoadProgress::new(2);
    let phase = on_sprite_report(AppState::InGame, &mut progress, &vec![true, true]);
    assert_eq!(phase, AppState::InGame);
    assert_eq!(progress.loaded, vec![false, false]);
}

#[test]
fn record_merges_reports() {
    let mut progress = LoadProgress::new(3);
    progress.record(&vec![false, true, false]);
    progress.record(&vec![true, false, false]);
    assert_eq!(progress.loaded, vec![true, true, false]);
}
