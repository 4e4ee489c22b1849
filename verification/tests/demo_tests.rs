use lab_world::demo::{configure_palette, create_simple_map_system};
use lab_world::location::Location;
use lab_world::palette::TilePalette;
use lab_world::tile::{
    Interaction, Sprite, TileAttributes, TileDefinition, TileInstance, TileType, FULL_HARDNESS,
    HALF_HARDNESS,
};

fn plain(name: &str, tile_type: TileType, sprite: u32) -> TileDefinition {
    TileDefinition {
        name: name.to_string(),
        tile_type,
        hardness: 0,
        tile_attributes: TileAttributes { hardness: 0, hit_points: 0, sprite_index: Some(sprite) },
        interaction: Interaction::Inert,
        sprite: Sprite { name: name.to_string(), atlas_sprite: sprite },
        description: String::new(),
    }
}

fn stock_palette() -> TilePalette {
    let mut palette = TilePalette::new();
    palette.insert("wall".to_string(), plain("wall", TileType::Wall, 1));
    palette.insert("floor".to_string(), plain("floor", TileType::Floor, 2));
    palette.insert("brick".to_string(), plain("brick", TileType::Brick, 5));
    palette.insert(
        "brick_door_closed".to_string(),
        plain("brick_door_closed", TileType::BrickDoorClosed, 6),
    );
    palette.insert("brick_window".to_string(), plain("brick_window", TileType::BrickWindow, 9));
    palette.insert(
        "brick_door_open".to_string(),
        plain("brick_door_open", TileType::BrickDoorOpen, 10),
    );
    palette.insert(
        "brick_window_broken".to_string(),
        plain("brick_window_broken", TileType::BrickWindowBroken, 12),
    );
    palette.insert("item_50".to_string(), plain("item_50", TileType::Key, 50));
    palette
}

fn count_at(tiles: &[TileInstance], x: i32, y: i32, z: i32) -> usize {
    tiles.iter().filter(|t| t.location == Location::world(x, y, z)).count()
}

#[test]
fn palette_is_set_up_for_the_map() {
    let mut palette = stock_palette();
    configure_palette(&mut palette);
    assert_eq!(palette.len(), 9);
    let wall = palette.get("wall").unwrap();
    assert_eq!(wall.hardness, FULL_HARDNESS);
    assert_eq!(wall.tile_attributes.hardness, FULL_HARDNESS);
    assert_eq!(wall.tile_attributes.hit_points, 200);
    assert_eq!(wall.tile_attributes.sprite_index, Some(1));
    assert_eq!(wall.interaction, Interaction::Inert);
    let brick = palette.get("brick").unwrap();
    assert_eq!(brick.hardness, FULL_HARDNESS);
    assert_eq!(brick.tile_attributes.hit_points, 800);
    let door = palette.get("brick_door_closed").unwrap();
    assert_eq!(door.hardness, HALF_HARDNESS);
    assert_eq!(door.tile_attributes.hardness, FULL_HARDNESS);
    assert_eq!(door.tile_attributes.hit_points, 1);
    assert_eq!(door.interaction, Interaction::OpenDoor);
    let locked = palette.get("locked_door").unwrap();
    assert_eq!(locked.name, "brick_door_closed");
    assert_eq!(locked.tile_type, TileType::BrickDoorClosed);
    assert_eq!(locked.hardness, HALF_HARDNESS);
    assert_eq!(locked.tile_attributes.hit_points, 1);
    assert_eq!(locked.interaction, Interaction::UnlockDoor);
    assert_eq!(locked.sprite.atlas_sprite, 6);
    let window = palette.get("brick_window").unwrap();
    assert_eq!(window.hardness, HALF_HARDNESS);
    assert_eq!(window.interaction, Interaction::BreakWindow);
    let item = palette.get("item_50").unwrap();
    assert_eq!(item.hardness, 0);
    assert_eq!(item.interaction, Interaction::PickUp);
    let floor = palette.get("floor").unwrap();
    assert_eq!(floor.hardness, 0);
    assert_eq!(floor.interaction, Interaction::Inert);
}

#[test]
fn setting_up_an_empty_palette_adds_nothing() {
    let mut palette = TilePalette::new();
    configure_palette(&mut palette);
    assert_eq!(palette.len(), 0);
}

#[test]
fn setting_up_twice_is_as_setting_up_once() {
    let mut palette = stock_palette();
    configure_palette(&mut palette);
    configure_palette(&mut palette);
    assert_eq!(palette.len(), 9);
    assert_eq!(palette.get("wall").unwrap().tile_attributes.hit_points, 200);
    assert_eq!(palette.get("locked_door").unwrap().interaction, Interaction::UnlockDoor);
    assert_eq!(palette.get("brick_door_closed").unwrap().interaction, Interaction::OpenDoor);
}

#[test]
fn map_on_the_stock_palette() {
    let mut palette = stock_palette();
    let tiles = create_simple_map_system(&mut palette);
    // Each house has 20 tiles of ring and 36 of floor, the walkway 12 of floor.
    assert_eq!(tiles.len(), 56 + 56 + 12 + 56 + 1);
    // The first house: five walls along the top.
    for i in 0..5 {
        assert_eq!(tiles[i].location, Location::world(i as i32, 0, 0));
        assert_eq!(tiles[i].tile_type, TileType::Wall);
        assert_eq!(tiles[i].hardness, FULL_HARDNESS);
    }
    // Then five down the right side.
    for i in 0..5 {
        assert_eq!(tiles[5 + i].location, Location::world(5, -(i as i32), 0));
    }
    // The door sits in the lower side.
    assert_eq!(tiles[11].location, Location::world(4, -5, 0));
    assert_eq!(tiles[11].tile_type, TileType::BrickDoorClosed);
    assert_eq!(tiles[11].interaction, Interaction::OpenDoor);
    assert_eq!(tiles[11].hardness, HALF_HARDNESS);
    // The ring closes where it began.
    assert_eq!(tiles[19].location, Location::world(0, -1, 0));
    // The floor follows, row by row.
    assert_eq!(tiles[20].location, Location::world(0, 0, 0));
    assert_eq!(tiles[20].tile_type, TileType::Floor);
    assert_eq!(tiles[55].location, Location::world(5, -5, 0));
    // The brick house is laid out at the same origin.
    assert_eq!(tiles[56].location, Location::world(0, 0, 0));
    assert_eq!(tiles[56].tile_type, TileType::Brick);
    assert_eq!(tiles[56 + 12].location, Location::world(3, -5, 0));
    assert_eq!(tiles[56 + 12].interaction, Interaction::UnlockDoor);
    assert_eq!(tiles[56 + 10].tile_type, TileType::BrickWindow);
    assert_eq!(tiles[56 + 10].interaction, Interaction::BreakWindow);
    // The walkway.
    assert_eq!(tiles[112].location, Location::world(0, 0, 0));
    assert_eq!(tiles[112 + 11].location, Location::world(1, -5, 0));
    // The basic house once more.
    assert_eq!(tiles[124 + 11].tile_type, TileType::BrickDoorClosed);
    // The item.
    let item = tiles[180];
    assert_eq!(item.location, Location::world(16, 0, 3));
    assert_eq!(item.tile_type, TileType::Key);
    assert_eq!(item.interaction, Interaction::PickUp);
    assert_eq!(item.sprite, 50);
}

#[test]
fn every_cell_of_the_houses_is_covered() {
    let mut palette = stock_palette();
    let tiles = create_simple_map_system(&mut palette);
    // floor of three houses and, on the two left columns, of the walkway
    assert_eq!(count_at(&tiles, 2, -2, 0), 3);
    assert_eq!(count_at(&tiles, 1, -2, 0), 4);
    // ring and floor of three houses in the corner, and the walkway
    assert_eq!(count_at(&tiles, 0, 0, 0), 3 + 3 + 1);
    assert_eq!(count_at(&tiles, 5, -5, 0), 3 + 3);
    assert_eq!(count_at(&tiles, 6, 0, 0), 0);
    assert_eq!(count_at(&tiles, 0, 1, 0), 0);
    assert_eq!(count_at(&tiles, 16, 0, 3), 1);
}

#[test]
fn map_also_sets_up_the_palette() {
    let mut palette = stock_palette();
    create_simple_map_system(&mut palette);
    assert!(palette.contains("locked_door"));
    assert_eq!(palette.get("wall").unwrap().hardness, FULL_HARDNESS);
}

#[test]
fn map_on_an_empty_palette_has_no_tiles() {
    let mut palette = TilePalette::new();
    let tiles = create_simple_map_system(&mut palette);
    assert!(tiles.is_empty());
    assert_eq!(palette.len(), 0);
}

#[test]
fn map_without_walls_keeps_the_rest_in_step() {
    let mut palette = stock_palette();
    palette.remove("wall");
    let tiles = create_simple_map_system(&mut palette);
    // The basic house is left with its door, laid at the cursor that never
    // moved, and its floor.
    assert_eq!(tiles.len(), 37 + 56 + 12 + 37 + 1);
    assert_eq!(tiles[0].tile_type, TileType::BrickDoorClosed);
    assert_eq!(tiles[0].location, Location::world(0, 0, 0));
    assert_eq!(tiles[1].tile_type, TileType::Floor);
}
