use lab_world::sprites::{SpriteLibrary, TileLoader};
use lab_world::tile::{Sprite, TileType};

fn library_of(names: &[&str]) -> SpriteLibrary {
    let mut library = SpriteLibrary::new();
    let mut cell: u32 = 0;
    for name in names {
        library.add(Sprite { name: name.to_string(), atlas_sprite: cell });
        cell += 1;
    }
    library
}

#[test]
fn empty_library_holds_nothing() {
    let library = SpriteLibrary::new();
    assert_eq!(library.len(), 0);
    assert!(library.get("wall").is_none());
    assert!(TileLoader::sprite_for_tiletype(&TileType::Wall, &library).is_none());
}

#[test]
fn first_sprite_of_a_name_is_found() {
    let library = library_of(&["wall", "floor", "wall"]);
    assert_eq!(library.len(), 3);
    assert_eq!(library.get("wall").unwrap().atlas_sprite, 0);
    assert_eq!(library.get("floor").unwrap().atlas_sprite, 1);
    assert!(library.get("brick").is_none());
}

#[test]
fn each_family_has_its_sprite() {
    let names = [
        "wall",
        "brick",
        "brick_door_open",
        "brick_door_closed",
        "brick_window",
        "brick_window_broken",
        "floor",
        "chair",
        "shelf",
        "bed",
        "table",
        "fridge",
    ];
    let library = library_of(&names);
    let expect = [
        (TileType::Wall, "wall"),
        (TileType::Brick, "brick"),
        (TileType::BrickDoorOpen, "brick_door_open"),
        (TileType::BrickDoorClosed, "brick_door_closed"),
        (TileType::BrickWindow, "brick_window"),
        (TileType::BrickWindowBroken, "brick_window_broken"),
        (TileType::Floor, "floor"),
        (TileType::Lava, "floor"),
        (TileType::Bar, "floor"),
        (TileType::Grass, "floor"),
        (TileType::Chair, "chair"),
        (TileType::Shelf, "shelf"),
        (TileType::Bed, "bed"),
        (TileType::Table, "table"),
        (TileType::Fridge, "fridge"),
        (TileType::Key, "floor"),
    ];
    for (family, name) in expect.iter() {
        assert_eq!(family.sprite_name(), *name);
        let sprite = TileLoader::sprite_for_tiletype(family, &library).unwrap();
        assert_eq!(sprite.name, *name);
    }
}

#[test]
fn missing_sprite_is_reported_not_fatal() {
    let library = library_of(&["wall"]);
    assert!(TileLoader::sprite_for_tiletype(&TileType::Fridge, &library).is_none());
    assert!(TileLoader::sprite_for_tiletype(&TileType::Key, &library).is_none());
}
