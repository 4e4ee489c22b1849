use lab_world::builder::MapBuilder;
use lab_world::location::{Area, Location, RelativePosition};
use lab_world::palette::TilePalette;
use lab_world::tile::{Interaction, Sprite, TileAttributes, TileDefinition, TileType};

fn definition(name: &str, tile_type: TileType, sprite: u32) -> TileDefinition {
    TileDefinition {
        name: name.to_string(),
        tile_type,
        hardness: if tile_type == TileType::Wall { 1000 } else { 0 },
        tile_attributes: TileAttributes::default(),
        interaction: Interaction::Inert,
        sprite: Sprite { name: name.to_string(), atlas_sprite: sprite },
        description: String::new(),
    }
}

fn small_palette() -> TilePalette {
    let mut palette = TilePalette::new();
    palette.insert("wall".to_string(), definition("wall", TileType::Wall, 1));
    palette.insert("floor".to_string(), definition("floor", TileType::Floor, 2));
    palette.insert("chair".to_string(), definition("chair", TileType::Chair, 3));
    palette
}

fn places(builder: &MapBuilder) -> Vec<(i32, i32, i32)> {
    builder.placements().iter().map(|p| (p.location.x, p.location.y, p.location.z)).collect()
}

fn names(builder: &MapBuilder) -> Vec<String> {
    builder.placements().iter().map(|p| p.tile_name.clone()).collect()
}

#[test]
fn new_builder_stands_at_its_origin() {
    let builder = MapBuilder::new(small_palette(), &Location::world(3, 4, 5));
    assert_eq!(builder.origin(), Location::world(3, 4, 5));
    assert_eq!(builder.cursor(), Location::world(3, 4, 5));
    assert!(builder.placements().is_empty());
    assert!(builder.iter().is_empty());
    assert_eq!(builder.palette().len(), 3);
    assert!(builder.blueprint("house").is_none());
}

#[test]
fn five_walls_to_the_right() {
    let mut builder = MapBuilder::new(small_palette(), &Location::world(0, 0, 0));
    builder.add_tiles(RelativePosition::RightOf, 5, "wall".to_string());
    assert_eq!(places(&builder), vec![(0, 0, 0), (1, 0, 0), (2, 0, 0), (3, 0, 0), (4, 0, 0)]);
    assert!(names(&builder).iter().all(|name| name == "wall"));
    let tiles = builder.iter();
    assert_eq!(tiles.len(), 5);
    for (i, tile) in tiles.iter().enumerate() {
        assert_eq!(tile.location, Location::world(i as i32, 0, 0));
        assert_eq!(tile.tile_type, TileType::Wall);
        assert_eq!(tile.sprite, 1);
        assert_eq!(tile.hardness, 1000);
    }
    assert_eq!(builder.cursor(), Location::world(5, 0, 0));
}

#[test]
fn runs_follow_the_cursor_in_every_direction() {
    let mut builder = MapBuilder::new(small_palette(), &Location::world(0, 0, 2));
    builder
        .add_tiles(RelativePosition::RightOf, 2, "wall".to_string())
        .add_tiles(RelativePosition::Below, 2, "floor".to_string())
        .add_tiles(RelativePosition::LeftOf, 2, "wall".to_string())
        .add_tiles(RelativePosition::Above, 2, "chair".to_string());
    assert_eq!(
        places(&builder),
        vec![(0, 0, 2), (1, 0, 2), (2, 0, 2), (2, -1, 2), (2, -2, 2), (1, -2, 2), (0, -2, 2), (0, -1, 2)]
    );
    assert_eq!(
        names(&builder),
        vec!["wall", "wall", "floor", "floor", "wall", "wall", "chair", "chair"]
    );
    assert_eq!(builder.cursor(), Location::world(0, 0, 2));
}

#[test]
fn unknown_tile_name_changes_nothing() {
    let mut builder = MapBuilder::new(small_palette(), &Location::world(0, 0, 0));
    builder.add_tiles(RelativePosition::RightOf, 2, "wall".to_string());
    builder.add_tiles(RelativePosition::RightOf, 3, "lava".to_string());
    assert_eq!(places(&builder), vec![(0, 0, 0), (1, 0, 0)]);
    assert_eq!(builder.cursor(), Location::world(2, 0, 0));
    builder.add_tiles_to_area(&Location::world(0, 0, 0), Area { width: 2, height: 2 }, "lava".to_string());
    assert_eq!(builder.placements().len(), 2);
    builder.add_tiles(RelativePosition::RightOf, 1, "wall".to_string());
    assert_eq!(places(&builder), vec![(0, 0, 0), (1, 0, 0), (2, 0, 0)]);
}

#[test]
fn run_of_no_tiles_changes_nothing() {
    let mut builder = MapBuilder::new(small_palette(), &Location::world(7, 7, 0));
    builder.add_tiles(RelativePosition::Below, 0, "wall".to_string());
    assert!(builder.placements().is_empty());
    assert_eq!(builder.cursor(), Location::world(7, 7, 0));
}

#[test]
fn area_is_filled_row_by_row_downwards() {
    let mut builder = MapBuilder::new(small_palette(), &Location::world(0, 0, 0));
    builder.add_tiles(RelativePosition::RightOf, 1, "wall".to_string());
    builder.add_tiles_to_area(
        &Location::world(10, 20, 1),
        Area { width: 3, height: 2 },
        "floor".to_string(),
    );
    assert_eq!(
        places(&builder),
        vec![(0, 0, 0), (10, 20, 1), (11, 20, 1), (12, 20, 1), (10, 19, 1), (11, 19, 1), (12, 19, 1)]
    );
    assert_eq!(builder.cursor(), Location::world(1, 0, 0));
    assert!(names(&builder)[1..].iter().all(|name| name == "floor"));
}

#[test]
fn relative_anchor_is_taken_from_the_origin() {
    let mut builder = MapBuilder::new(small_palette(), &Location::world(100, 100, 0));
    builder.add_tiles_to_area(&Location::local(1, -1, 2), Area { width: 1, height: 2 }, "floor".to_string());
    assert_eq!(places(&builder), vec![(101, 99, 2), (101, 98, 2)]);
}

#[test]
fn empty_area_adds_nothing() {
    let mut builder = MapBuilder::new(small_palette(), &Location::world(0, 0, 0));
    builder.add_tiles_to_area(&Location::world(0, 0, 0), Area { width: 0, height: 5 }, "floor".to_string());
    builder.add_tiles_to_area(&Location::world(0, 0, 0), Area { width: 5, height: 0 }, "floor".to_string());
    assert!(builder.placements().is_empty());
}

#[test]
fn blueprint_freezes_and_clears() {
    let mut builder = MapBuilder::new(small_palette(), &Location::world(10, 10, 1));
    builder.add_tiles(RelativePosition::RightOf, 2, "wall".to_string()).to_blueprint("row");
    assert!(builder.placements().is_empty());
    let records = builder.blueprint("row").unwrap();
    assert_eq!(records.len(), 2);
    assert_eq!(records[0].location, Location::local(0, 0, 0));
    assert_eq!(records[1].location, Location::local(1, 0, 0));
    assert_eq!(records[1].tile_name, "wall");
    assert_eq!(builder.origin(), Location::world(10, 10, 1));
    assert_eq!(builder.cursor(), Location::world(12, 10, 1));
}

#[test]
fn blueprint_replayed_at_a_new_origin_is_shifted() {
    let mut builder = MapBuilder::new(small_palette(), &Location::world(0, 0, 0));
    builder
        .add_tiles(RelativePosition::RightOf, 2, "wall".to_string())
        .add_tiles(RelativePosition::Below, 2, "chair".to_string())
        .to_blueprint("corner");
    let recorded: Vec<Location> =
        builder.blueprint("corner").unwrap().iter().map(|p| p.location).collect();
    builder.set_position(Location::world(16, -3, 3)).add_tiles_from_blueprint("corner");
    let laid = places(&builder);
    assert_eq!(laid.len(), recorded.len());
    for (place, record) in laid.iter().zip(recorded.iter()) {
        assert_eq!(*place, (record.x + 16, record.y - 3, record.z + 3));
    }
    assert_eq!(laid, vec![(16, -3, 3), (17, -3, 3), (18, -3, 3), (18, -4, 3)]);
    assert_eq!(names(&builder), vec!["wall", "wall", "chair", "chair"]);
}

#[test]
fn blueprint_replayed_where_it_was_built_gives_the_tiles_back() {
    let mut builder = MapBuilder::new(small_palette(), &Location::world(5, 5, 0));
    builder.add_tiles(RelativePosition::Above, 3, "wall".to_string());
    let before = places(&builder);
    builder.to_blueprint("post").add_tiles_from_blueprint("post");
    assert_eq!(places(&builder), before);
}

#[test]
fn replay_leaves_the_blueprint_as_it_was() {
    let mut builder = MapBuilder::new(small_palette(), &Location::world(0, 0, 0));
    builder.add_tiles(RelativePosition::RightOf, 3, "wall".to_string()).to_blueprint("row");
    builder.set_position(Location::world(50, 50, 0));
    builder.add_tiles_from_blueprint("row").add_tiles_from_blueprint("row");
    assert_eq!(builder.placements().len(), 6);
    let records = builder.blueprint("row").unwrap();
    assert_eq!(records.len(), 3);
    assert_eq!(records[2].location, Location::local(2, 0, 0));
}

#[test]
fn replay_appends_behind_the_tiles_laid_out() {
    let mut builder = MapBuilder::new(small_palette(), &Location::world(0, 0, 0));
    builder.add_tiles(RelativePosition::RightOf, 1, "wall".to_string()).to_blueprint("one");
    builder.add_tiles(RelativePosition::RightOf, 1, "floor".to_string());
    builder.add_tiles_from_blueprint("one");
    assert_eq!(places(&builder), vec![(1, 0, 0), (0, 0, 0)]);
    assert_eq!(names(&builder), vec!["floor", "wall"]);
}

#[test]
fn unknown_blueprint_changes_nothing() {
    let mut builder = MapBuilder::new(small_palette(), &Location::world(0, 0, 0));
    builder.add_tiles(RelativePosition::RightOf, 1, "wall".to_string());
    builder.add_tiles_from_blueprint("castle");
    assert_eq!(places(&builder), vec![(0, 0, 0)]);
    assert!(builder.blueprint("castle").is_none());
}

#[test]
fn freezing_under_a_used_name_replaces() {
    let mut builder = MapBuilder::new(small_palette(), &Location::world(0, 0, 0));
    builder.add_tiles(RelativePosition::RightOf, 3, "wall".to_string()).to_blueprint("shape");
    builder.add_tiles(RelativePosition::Below, 1, "chair".to_string()).to_blueprint("other");
    builder.add_tiles(RelativePosition::Below, 2, "floor".to_string()).to_blueprint("shape");
    let shape = builder.blueprint("shape").unwrap();
    assert_eq!(shape.len(), 2);
    assert_eq!(shape[0].tile_name, "floor");
    assert_eq!(builder.blueprint("other").unwrap().len(), 1);
}

#[test]
fn empty_layout_freezes_to_an_empty_blueprint() {
    let mut builder = MapBuilder::new(small_palette(), &Location::world(0, 0, 0));
    builder.to_blueprint("nothing");
    assert_eq!(builder.blueprint("nothing").unwrap().len(), 0);
    builder.add_tiles_from_blueprint("nothing");
    assert!(builder.placements().is_empty());
}

#[test]
fn replay_leaves_out_a_name_that_the_palette_lost() {
    let mut builder = MapBuilder::new(small_palette(), &Location::world(0, 0, 0));
    builder
        .add_tiles(RelativePosition::RightOf, 1, "wall".to_string())
        .add_tiles(RelativePosition::RightOf, 1, "chair".to_string())
        .add_tiles(RelativePosition::RightOf, 1, "wall".to_string())
        .to_blueprint("row");
    let mut poorer = small_palette();
    poorer.remove("chair");
    builder.set_palette(poorer);
    builder.add_tiles_from_blueprint("row");
    assert_eq!(places(&builder), vec![(0, 0, 0), (2, 0, 0)]);
    assert_eq!(builder.blueprint("row").unwrap().len(), 3);
}

#[test]
fn iter_leaves_out_a_name_that_the_palette_lost() {
    let mut builder = MapBuilder::new(small_palette(), &Location::world(0, 0, 0));
    builder
        .add_tiles(RelativePosition::RightOf, 1, "wall".to_string())
        .add_tiles(RelativePosition::RightOf, 1, "chair".to_string());
    let mut poorer = small_palette();
    poorer.remove("wall");
    builder.set_palette(poorer);
    let tiles = builder.iter();
    assert_eq!(tiles.len(), 1);
    assert_eq!(tiles[0].tile_type, TileType::Chair);
    assert_eq!(tiles[0].location, Location::world(1, 0, 0));
}

#[test]
fn iter_takes_attributes_from_the_palette_at_the_time_of_the_call() {
    let mut builder = MapBuilder::new(small_palette(), &Location::world(0, 0, 0));
    builder.add_tiles(RelativePosition::RightOf, 1, "wall".to_string());
    let mut repainted = small_palette();
    repainted.get_mut("wall").unwrap().sprite.atlas_sprite = 99;
    builder.set_palette(repainted);
    assert_eq!(builder.iter()[0].sprite, 99);
    assert_eq!(builder.iter()[0].sprite, 99);
}

#[test]
fn set_position_moves_origin_and_cursor_only() {
    let mut builder = MapBuilder::new(small_palette(), &Location::world(0, 0, 0));
    builder.add_tiles(RelativePosition::RightOf, 2, "wall".to_string());
    builder.set_position(Location::world(16, 0, 3));
    assert_eq!(builder.origin(), Location::world(16, 0, 3));
    assert_eq!(builder.cursor(), Location::world(16, 0, 3));
    assert_eq!(places(&builder), vec![(0, 0, 0), (1, 0, 0)]);
    builder.set_position(Location::local(1, 1, 1));
    assert_eq!(builder.origin(), Location::world(17, 1, 4));
    builder.add_tiles(RelativePosition::Below, 1, "chair".to_string());
    assert_eq!(places(&builder)[2], (17, 1, 4));
}

#[test]
fn capture_measures_from_the_origin_at_the_time_of_the_call() {
    let mut builder = MapBuilder::new(small_palette(), &Location::world(0, 0, 0));
    builder.add_tiles(RelativePosition::RightOf, 1, "wall".to_string());
    builder.set_position(Location::world(10, 10, 0)).to_blueprint("far");
    assert_eq!(builder.blueprint("far").unwrap()[0].location, Location::local(-10, -10, 0));
    builder.add_tiles_from_blueprint("far");
    assert_eq!(places(&builder), vec![(0, 0, 0)]);
}

#[test]
fn range_checks_agree_with_the_world_bounds() {
    let limit = lab_world::location::WORLD_LIMIT;
    let mut builder = MapBuilder::new(small_palette(), &Location::world(0, 0, 0));
    builder.add_tiles(RelativePosition::RightOf, 3, "wall".to_string()).to_blueprint("row");
    assert!(builder.fits_blueprint("row"));
    assert!(builder.fits_blueprint("castle"));
    assert!(builder.fits_position(&Location::world(limit, 0, 0)));
    assert!(!builder.fits_position(&Location::world(limit + 1, 0, 0)));
    builder.set_position(Location::world(limit - 1, 0, 0));
    assert!(!builder.fits_blueprint("row"));
    assert!(builder.fits_position(&Location::local(1, 0, 0)));
    assert!(!builder.fits_position(&Location::local(2, 0, 0)));
    assert!(builder.fits_area(&Location::local(0, 0, 0), &Area { width: 2, height: 1 }));
    assert!(!builder.fits_area(&Location::local(0, 0, 0), &Area { width: 3, height: 1 }));
    assert!(builder.fits_area(&Location::world(0, -limit, 0), &Area { width: 1, height: 1 }));
    assert!(!builder.fits_area(&Location::world(0, -limit, 0), &Area { width: 1, height: 2 }));
    assert!(builder.fits_area(&Location::local(5, 0, 0), &Area { width: 0, height: 9 }) == false);
    assert!(builder.fits_area(&Location::world(limit + 5, 0, 0), &Area { width: 0, height: 9 }));
}
