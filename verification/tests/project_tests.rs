use tile_scene::atlas::{build_atlas, ScanOrder, SpriteAtlas, TilesetDescriptor};
use tile_scene::error::MapError;
use tile_scene::project::{project_layer, ProjectionConfig, TileGrid, YConvention};

fn atlas_with_8_sprites() -> SpriteAtlas {
    let ts = TilesetDescriptor { tile_width: 64, tile_height: 64, image_width: 256, image_height: 128 };
    build_atlas(&ts, ScanOrder::TopRowFirst, 0, 0, 0).unwrap()
}

fn config(convention: YConvention, viewport_height: u32) -> ProjectionConfig {
    ProjectionConfig {
        convention,
        tile_width: 64,
        tile_height: 64,
        viewport_height,
        pivot_x: 0,
        pivot_y: 0,
        depth: 1,
    }
}

#[test]
fn empty_cells_are_skipped() {
    let grid = TileGrid { cells: vec![vec![0, 3, 0, 5]] };
    let atlas = atlas_with_8_sprites();
    let records = project_layer(&grid, &atlas, &config(YConvention::DownwardY, 0)).unwrap();
    assert_eq!(records.len(), 2);
    assert_eq!(records[0].sprite_index, 2);
    assert_eq!(records[0].x, 64);
    assert_eq!(records[1].sprite_index, 4);
    assert_eq!(records[1].x, 192);
}

#[test]
fn upward_y_inverts_rows_against_viewport() {
    let grid = TileGrid { cells: vec![vec![1, 1], vec![2, 2]] };
    let atlas = atlas_with_8_sprites();
    let records = project_layer(&grid, &atlas, &config(YConvention::UpwardY, 128)).unwrap();
    assert_eq!(records.len(), 4);
    assert_eq!(records[0].y, 128);
    assert_eq!(records[1].y, 128);
    assert_eq!(records[2].y, 64);
    assert_eq!(records[3].y, 64);
}

#[test]
fn downward_y_keeps_row_order() {
    let grid = TileGrid { cells: vec![vec![1, 1], vec![2, 2]] };
    let atlas = atlas_with_8_sprites();
    let records = project_layer(&grid, &atlas, &config(YConvention::DownwardY, 128)).unwrap();
    assert_eq!(records.len(), 4);
    assert_eq!(records[0].y, 0);
    assert_eq!(records[1].y, 0);
    assert_eq!(records[2].y, 64);
    assert_eq!(records[3].y, 64);
}

#[test]
fn out_of_range_gid_rejected_without_output() {
    let grid = TileGrid { cells: vec![vec![1, 9999]] };
    let atlas = atlas_with_8_sprites();
    assert_eq!(atlas.sprites.len(), 8);
    match project_layer(&grid, &atlas, &config(YConvention::DownwardY, 0)) {
        Err(MapError::SpriteIndexOutOfRange) => {}
        _ => panic!("a gid past the atlas's sprites must reject the whole layer"),
    }
}

#[test]
fn gid_at_sprite_count_boundary() {
    let atlas = atlas_with_8_sprites();
    let highest_valid = TileGrid { cells: vec![vec![8]] };
    let records =
        project_layer(&highest_valid, &atlas, &config(YConvention::DownwardY, 0)).unwrap();
    assert_eq!(records.len(), 1);
    assert_eq!(records[0].sprite_index, 7);
    let one_past = TileGrid { cells: vec![vec![9]] };
    match project_layer(&one_past, &atlas, &config(YConvention::DownwardY, 0)) {
        Err(MapError::SpriteIndexOutOfRange) => {}
        _ => panic!("a gid one past the sprite count must be rejected"),
    }
}

#[test]
fn ragged_grid_rejected_before_any_output() {
    let grid = TileGrid { cells: vec![vec![1, 1, 1, 1], vec![1, 1, 1, 1, 1]] };
    let atlas = atlas_with_8_sprites();
    match project_layer(&grid, &atlas, &config(YConvention::DownwardY, 0)) {
        Err(MapError::RaggedGrid) => {}
        _ => panic!("rows of unequal length must reject the whole layer"),
    }
    // Raggedness is reported even when an out-of-range gid is present too.
    let both = TileGrid { cells: vec![vec![9999, 1, 1, 1], vec![1, 1, 1, 1, 1]] };
    match project_layer(&both, &atlas, &config(YConvention::DownwardY, 0)) {
        Err(MapError::RaggedGrid) => {}
        _ => panic!("raggedness is detected first"),
    }
}

#[test]
fn projection_is_deterministic() {
    let grid = TileGrid { cells: vec![vec![0, 3, 0, 5], vec![8, 0, 1, 0]] };
    let atlas = atlas_with_8_sprites();
    let cfg = config(YConvention::UpwardY, 256);
    let first = project_layer(&grid, &atlas, &cfg).unwrap();
    let second = project_layer(&grid, &atlas, &cfg).unwrap();
    assert_eq!(first, second);
}

#[test]
fn empty_grid_projects_to_nothing() {
    let grid = TileGrid { cells: Vec::new() };
    let atlas = atlas_with_8_sprites();
    let records = project_layer(&grid, &atlas, &config(YConvention::UpwardY, 128)).unwrap();
    assert!(records.is_empty());
}

#[test]
fn pivot_and_depth_are_applied() {
    let grid = TileGrid { cells: vec![vec![4]] };
    let atlas = atlas_with_8_sprites();
    let cfg = ProjectionConfig {
        convention: YConvention::UpwardY,
        tile_width: 64,
        tile_height: 64,
        viewport_height: 128,
        pivot_x: 32,
        pivot_y: -32,
        depth: 7,
    };
    let records = project_layer(&grid, &atlas, &cfg).unwrap();
    assert_eq!(records.len(), 1);
    assert_eq!(records[0].sprite_index, 3);
    assert_eq!(records[0].x, 32);
    assert_eq!(records[0].y, 96);
    assert_eq!(records[0].z, 7);
}
