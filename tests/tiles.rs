use voxel_scene::{generate_tile_list, Region};

#[test]
fn tile_list_covers_region_south_to_north_west_to_east() {
    let tiles = generate_tile_list(&Region::new(49, 45, 5, 0));
    assert_eq!(tiles.len(), 30);
    assert_eq!(tiles[0], "n45e000.zip");
    assert_eq!(tiles[1], "n45e001.zip");
    assert_eq!(tiles[5], "n45e005.zip");
    assert_eq!(tiles[6], "n46e000.zip");
    assert_eq!(tiles[29], "n49e005.zip");
}

#[test]
fn tile_list_southern_and_western_hemispheres() {
    let tiles = generate_tile_list(&Region::new(0, -1, 1, -1));
    assert_eq!(
        tiles,
        vec![
            "s01w001.zip".to_string(),
            "s01e000.zip".to_string(),
            "s01e001.zip".to_string(),
            "n00w001.zip".to_string(),
            "n00e000.zip".to_string(),
            "n00e001.zip".to_string(),
        ]
    );
}

#[test]
fn tile_list_wide_numbers_are_not_truncated() {
    let tiles = generate_tile_list(&Region::new(123, 123, -1234, -1234));
    assert_eq!(tiles, vec!["n123w1234.zip".to_string()]);
    let tiles = generate_tile_list(&Region::new(-7, -7, 71, 71));
    assert_eq!(tiles, vec!["s07e071.zip".to_string()]);
}

#[test]
fn tile_list_extreme_coordinates() {
    let tiles = generate_tile_list(&Region::new(i32::MIN, i32::MIN, i32::MAX, i32::MAX));
    assert_eq!(tiles, vec!["s2147483648e2147483647.zip".to_string()]);
}

#[test]
fn tile_list_empty_region() {
    assert!(generate_tile_list(&Region::new(44, 45, 5, 0)).is_empty());
    assert!(generate_tile_list(&Region::new(49, 45, -1, 0)).is_empty());
}
