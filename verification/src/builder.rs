//! The map builder: a cursor that lays out runs and areas of tiles, keeps
//! named layouts as blueprints, and replays them at other places.

use vstd::prelude::*;
use crate::location::{in_bounds, Area, Location, RelativePosition, WorldLocation};
use crate::palette::TilePalette;
use crate::tile::{TileDefinition, TileInstance};

verus! {

/// A tile to be: the name of its template and its place.
#[derive(Debug)]
pub struct Placement {
    pub location: Location,
    pub tile_name: String,
}

/// A named layout, its places measured from the origin it was built at.
struct Blueprint {
    name: String,
    records: Vec<Placement>,
}

/// Lays out tiles.
pub struct MapBuilder {
    palette: TilePalette,
    origin: Location,
    cursor: Location,
    pending: Vec<Placement>,
    blueprints: Vec<Blueprint>,
}

/// What a placement says: a place, and the name of a template.
pub struct Spot {
    pub location: Location,
    pub tile_name: Seq<char>,
}

/// What a builder holds.
pub struct Layout {
    /// The templates that names are looked up in.
    pub palette: Map<Seq<char>, TileDefinition>,
    /// The place that blueprints are measured from and replayed at.
    pub origin: Location,
    /// The place of the next tile of a run.
    pub cursor: Location,
    /// The tiles laid out and not yet frozen, in order.
    pub placements: Seq<Spot>,
    /// The frozen layouts by name.
    pub blueprints: Map<Seq<char>, Seq<Spot>>,
}

impl View for Placement {
    type V = Spot;

    open spec fn view(&self) -> Spot {
        Spot { location: self.location, tile_name: self.tile_name@ }
    }
}

/// What each of `placements` says, in order.
pub open spec fn spots(placements: Seq<Placement>) -> Seq<Spot> {
    Seq::new(placements.len(), |i: int| placements[i]@)
}

impl Clone for Placement {
    fn clone(&self) -> (copy: Placement)
        ensures
            copy == *self,
    {
        Placement { location: self.location, tile_name: self.tile_name.clone() }
    }
}

/// A run of `count` tiles named `tile_name`, from `start` on, one step apart
/// in `direction`.
pub open spec fn run(
    start: Location,
    direction: RelativePosition,
    count: nat,
    tile_name: Seq<char>,
) -> Seq<Spot> {
    Seq::new(count, |i: int| Spot { location: start.stepped(direction, i), tile_name })
}

/// The cell of index `k` of an area that is `width` cells wide and anchored at
/// `anchor`: cells are counted row by row, each row to the right, the rows
/// downwards.
pub open spec fn area_cell(anchor: Location, width: int, k: int) -> Location {
    anchor.stepped(RelativePosition::RightOf, k % width).stepped(
        RelativePosition::Below,
        k / width,
    )
}

/// The cells of `area` anchored at `anchor`, each with a tile named
/// `tile_name`.
pub open spec fn area_cells(anchor: Location, area: Area, tile_name: Seq<char>) -> Seq<Spot> {
    Seq::new(
        (area.width * area.height) as nat,
        |k: int| Spot { location: area_cell(anchor, area.width as int, k), tile_name },
    )
}

/// Every cell of `area` anchored at `anchor` lies within the world.
pub open spec fn area_in_world(anchor: Location, area: Area) -> bool {
    area.width > 0 && area.height > 0 ==> anchor.in_world() && in_bounds(
        anchor.x + area.width - 1,
    ) && in_bounds(anchor.y - (area.height - 1))
}

/// `placements` as measured from `origin`.
pub open spec fn captured(placements: Seq<Spot>, origin: Location) -> Seq<Spot> {
    Seq::new(
        placements.len(),
        |i: int|
            Spot {
                location: placements[i].location.spec_relative_to(origin),
                tile_name: placements[i].tile_name,
            },
    )
}

/// The placements that replaying `records` at `origin` adds: one for each
/// record whose tile name `palette` holds, in order, at the record's place
/// moved by `origin`.
pub open spec fn replayed(
    records: Seq<Spot>,
    origin: Location,
    palette: Map<Seq<char>, TileDefinition>,
) -> Seq<Spot>
    decreases records.len(),
{
    if records.len() == 0 {
        Seq::empty()
    } else {
        let before = replayed(records.drop_last(), origin, palette);
        let record = records.last();
        if palette.contains_key(record.tile_name) {
            before.push(
                Spot {
                    location: record.location.spec_placed_at(origin),
                    tile_name: record.tile_name,
                },
            )
        } else {
            before
        }
    }
}

/// `records` with every place moved by `origin`.
pub open spec fn moved(records: Seq<Spot>, origin: Location) -> Seq<Spot> {
    Seq::new(
        records.len(),
        |i: int|
            Spot {
                location: records[i].location.spec_placed_at(origin),
                tile_name: records[i].tile_name,
            },
    )
}

/// `palette` holds the tile name of every placement.
pub open spec fn all_known(placements: Seq<Spot>, palette: Map<Seq<char>, TileDefinition>)
    -> bool {
    forall|i: int|
        0 <= i < placements.len() ==> palette.contains_key((#[trigger] placements[i]).tile_name)
}

/// Every record of `records`, moved by `origin`, lies within the world.
pub open spec fn replay_in_world(records: Seq<Spot>, origin: Location) -> bool {
    forall|i: int|
        0 <= i < records.len() ==> (#[trigger] records[i]).location.lands_in_world(
            origin.x as int,
            origin.y as int,
            origin.z as int,
        )
}

/// The tiles that `placements` stand for: one for each placement whose tile
/// name `palette` holds, in order, stamped from the template of that name.
pub open spec fn instantiated(placements: Seq<Spot>, palette: Map<Seq<char>, TileDefinition>)
    -> Seq<TileInstance>
    decreases placements.len(),
{
    if placements.len() == 0 {
        Seq::empty()
    } else {
        let before = instantiated(placements.drop_last(), palette);
        let placement = placements.last();
        if palette.contains_key(placement.tile_name) {
            before.push(palette[placement.tile_name].spec_stamp(placement.location))
        } else {
            before
        }
    }
}

/// The records of the first blueprint of `table` named `name`.
spec fn first_named(table: Seq<Blueprint>, name: Seq<char>) -> Option<Seq<Spot>>
    decreases table.len(),
{
    if table.len() == 0 {
        None
    } else {
        match first_named(table.drop_last(), name) {
            Some(records) => Some(records),
            None => if table.last().name@ == name {
                Some(spots(table.last().records@))
            } else {
                None
            },
        }
    }
}

/// The blueprints of `table` by name.
spec fn by_name(table: Seq<Blueprint>) -> Map<Seq<char>, Seq<Spot>> {
    Map::new(
        |name: Seq<char>| first_named(table, name) is Some,
        |name: Seq<char>| first_named(table, name)->Some_0,
    )
}

impl Layout {
    /// The layout of a builder that starts on `palette` at `origin`.
    pub open spec fn start(palette: Map<Seq<char>, TileDefinition>, origin: Location) -> Layout {
        Layout {
            palette,
            origin: Location { frame: WorldLocation::World, ..origin },
            cursor: Location { frame: WorldLocation::World, ..origin },
            placements: Seq::empty(),
            blueprints: Map::empty(),
        }
    }

    /// This layout after a run of `count` tiles named `tile_name` was laid
    /// out from the cursor on in `direction`: the cursor stands a step past
    /// the last tile. Nothing changes where the palette does not hold the name.
    pub open spec fn with_tiles(
        self,
        direction: RelativePosition,
        count: nat,
        tile_name: Seq<char>,
    ) -> Layout {
        if self.palette.contains_key(tile_name) {
            Layout {
                placements: self.placements + run(self.cursor, direction, count, tile_name),
                cursor: self.cursor.stepped(direction, count as int),
                ..self
            }
        } else {
            self
        }
    }

    /// This layout after `area`, anchored at `origin`, was filled with tiles
    /// named `tile_name`. Nothing changes where the palette does not hold the
    /// name.
    pub open spec fn with_area(self, origin: Location, area: Area, tile_name: Seq<char>)
        -> Layout {
        if self.palette.contains_key(tile_name) {
            Layout {
                placements: self.placements + area_cells(
                    origin.spec_resolve(self.origin),
                    area,
                    tile_name,
                ),
                ..self
            }
        } else {
            self
        }
    }

    /// This layout with origin and cursor moved to `location`.
    pub open spec fn at_position(self, location: Location) -> Layout {
        Layout {
            origin: location.spec_resolve(self.origin),
            cursor: location.spec_resolve(self.origin),
            ..self
        }
    }

    /// This layout after its tiles were frozen under `name`.
    pub open spec fn frozen_as(self, name: Seq<char>) -> Layout {
        Layout {
            placements: Seq::empty(),
            blueprints: self.blueprints.insert(name, captured(self.placements, self.origin)),
            ..self
        }
    }

    /// This layout after the blueprint frozen under `name` was replayed at
    /// the origin. Nothing changes where no blueprint has that name.
    pub open spec fn with_blueprint(self, name: Seq<char>) -> Layout {
        if self.blueprints.contains_key(name) {
            Layout {
                placements: self.placements + replayed(
                    self.blueprints[name],
                    self.origin,
                    self.palette,
                ),
                ..self
            }
        } else {
            self
        }
    }

    /// The tiles that this layout stands for.
    pub open spec fn tiles(self) -> Seq<TileInstance> {
        instantiated(self.placements, self.palette)
    }
}

/// Every place of `placements` is absolute and lies within the world.
spec fn all_in_world(placements: Seq<Placement>) -> bool {
    forall|i: int|
        0 <= i < placements.len() ==> (#[trigger] placements[i]).location.in_world()
            && placements[i].location.frame == WorldLocation::World
}

impl View for MapBuilder {
    type V = Layout;

    closed spec fn view(&self) -> Layout {
        Layout {
            palette: self.palette@,
            origin: self.origin,
            cursor: self.cursor,
            placements: spots(self.pending@),
            blueprints: by_name(self.blueprints@),
        }
    }
}

impl MapBuilder {
    /// The palette is well formed; origin, cursor and every tile laid out are
    /// absolute and lie within the world.
    pub closed spec fn wf(&self) -> bool {
        &&& self.palette.wf()
        &&& self.origin.in_world()
        &&& self.origin.frame == WorldLocation::World
        &&& self.cursor.in_world()
        &&& self.cursor.frame == WorldLocation::World
        &&& all_in_world(self.pending@)
    }

    /// What well-formedness says of the view.
    pub proof fn lemma_wf(&self)
        requires
            self.wf(),
        ensures
            self@.origin.in_world(),
            self@.origin.frame == WorldLocation::World,
            self@.cursor.in_world(),
            self@.cursor.frame == WorldLocation::World,
            forall|i: int|
                0 <= i < self@.placements.len() ==> (#[trigger] self@.placements[i]).location.in_world()
                    && self@.placements[i].location.frame == WorldLocation::World,
    {
    }

    /// A builder on `palette` whose origin and cursor stand at `origin`.
    pub fn new(palette: TilePalette, origin: &Location) -> (builder: MapBuilder)
        requires
            palette.wf(),
            origin.in_world(),
        ensures
            builder.wf(),
            builder@ == Layout::start(palette@, *origin),
    {
        let at = Location { x: origin.x, y: origin.y, z: origin.z, frame: WorldLocation::World };
        let builder = MapBuilder {
            palette,
            origin: at,
            cursor: at,
            pending: Vec::new(),
            blueprints: Vec::new(),
        };
        assert(builder@.blueprints =~= Map::empty());
        assert(builder@.placements =~= Seq::empty());
        builder
    }

    /// Lays out `count` tiles named `tile_name`: the first at the cursor, each
    /// further one a step on in `direction`. The cursor ends a step past the
    /// last tile. Where the palette does not hold `tile_name`, nothing changes.
    pub fn add_tiles(&mut self, direction: RelativePosition, count: u32, tile_name: String) -> (builder:
        &mut Self)
        requires
            old(self).wf(),
            old(self)@.cursor.can_step(direction, count as int),
        ensures
            *final(self) == *final(builder),
            builder.wf(),
            builder@ == old(self)@.with_tiles(direction, count as nat, tile_name@),
    {
        if self.palette.contains(tile_name.as_str()) {
            let start = self.cursor;
            let mut i: u32 = 0;
            while i < count
                invariant
                    i <= count,
                    start.in_world(),
                    start.frame == WorldLocation::World,
                    start.can_step(direction, count as int),
                    all_in_world(self.pending@),
                    spots(self.pending@) == spots(old(self).pending@) + run(
                        start,
                        direction,
                        i as nat,
                        tile_name@,
                    ),
                    self.palette == old(self).palette,
                    self.origin == old(self).origin,
                    self.cursor == old(self).cursor,
                    self.blueprints == old(self).blueprints,
                decreases count - i,
            {
                let ghost before = self.pending@;
                let location = start.step(direction, i);
                let placement = Placement { location, tile_name: tile_name.clone() };
                self.pending.push(placement);
                i = i + 1;
                assert(spots(self.pending@) =~= spots(before).push(placement@));
            }
            self.cursor = start.step(direction, count);
        }
        self
    }

    /// Fills `area` with tiles named `tile_name`, row by row from the anchor
    /// to the right and downwards. The anchor is `origin`, taken from the
    /// builder's origin where it is relative. The cursor stays. Where the
    /// palette does not hold `tile_name`, nothing changes.
    pub fn add_tiles_to_area(&mut self, origin: &Location, area: Area, tile_name: String) -> (builder:
        &mut Self)
        requires
            old(self).wf(),
            origin.frame == WorldLocation::Local ==> origin.lands_in_world(
                old(self)@.origin.x as int,
                old(self)@.origin.y as int,
                old(self)@.origin.z as int,
            ),
            area_in_world(origin.spec_resolve(old(self)@.origin), area),
        ensures
            *final(self) == *final(builder),
            builder.wf(),
            builder@ == old(self)@.with_area(*origin, area, tile_name@),
    {
        if self.palette.contains(tile_name.as_str()) {
            let anchor = origin.resolve(&self.origin);
            let ghost width = area.width as int;
            let ghost base = old(self).pending@.len() as int;
            let mut row: u32 = 0;
            while row < area.height
                invariant
                    row <= area.height,
                    width == area.width,
                    base == old(self).pending@.len(),
                    anchor.frame == WorldLocation::World,
                    area_in_world(anchor, area),
                    all_in_world(self.pending@),
                    self.pending@.len() == base + row * width,
                    self.pending@.take(base) == old(self).pending@,
                    forall|k: int|
                        0 <= k < row * width ==> (#[trigger] self.pending@[base + k])@ == (Spot {
                            location: area_cell(anchor, width, k),
                            tile_name: tile_name@,
                        }),
                    self.palette == old(self).palette,
                    self.origin == old(self).origin,
                    self.cursor == old(self).cursor,
                    self.blueprints == old(self).blueprints,
                decreases area.height - row,
            {
                let mut column: u32 = 0;
                while column < area.width
                    invariant
                        row < area.height,
                        column <= area.width,
                        width == area.width,
                        base == old(self).pending@.len(),
                        anchor.frame == WorldLocation::World,
                        area_in_world(anchor, area),
                        all_in_world(self.pending@),
                        self.pending@.len() == base + row * width + column,
                        self.pending@.take(base) == old(self).pending@,
                        forall|k: int|
                            0 <= k < row * width + column ==> (#[trigger] self.pending@[base + k])@
                                == (Spot {
                                location: area_cell(anchor, width, k),
                                tile_name: tile_name@,
                            }),
                        self.palette == old(self).palette,
                        self.origin == old(self).origin,
                        self.cursor == old(self).cursor,
                        self.blueprints == old(self).blueprints,
                    decreases area.width - column,
                {
                    let location = anchor.step(RelativePosition::RightOf, column).step(
                        RelativePosition::Below,
                        row,
                    );
                    proof {
                        vstd::arithmetic::div_mod::lemma_fundamental_div_mod_converse(
                            row * width + column,
                            width,
                            row as int,
                            column as int,
                        );
                    }
                    self.pending.push(Placement { location, tile_name: tile_name.clone() });
                    column = column + 1;
                }
                assert(row * width + width == (row + 1) * width) by (nonlinear_arith);
                row = row + 1;
            }
            proof {
                assert(row * width == area.width * area.height) by (nonlinear_arith)
                    requires
                        row == area.height,
                        width == area.width,
                ;
                let laid = spots(old(self).pending@) + area_cells(anchor, area, tile_name@);
                assert forall|j: int| 0 <= j < laid.len() implies spots(self.pending@)[j]
                    == laid[j] by {
                    if j >= base {
                        let k = j - base;
                        assert((self.pending@[base + k])@ == (Spot {
                            location: area_cell(anchor, width, k),
                            tile_name: tile_name@,
                        }));
                    }
                }
                assert(spots(self.pending@) =~= laid);
            }
        }
        self
    }

    /// Moves origin and cursor to `location`, taken from the present origin
    /// where it is relative. The tiles laid out so far stay where they are.
    pub fn set_position(&mut self, location: Location) -> (builder: &mut Self)
        requires
            old(self).wf(),
            match location.frame {
                WorldLocation::World => location.in_world(),
                WorldLocation::Local => location.lands_in_world(
                    old(self)@.origin.x as int,
                    old(self)@.origin.y as int,
                    old(self)@.origin.z as int,
                ),
            },
        ensures
            *final(self) == *final(builder),
            builder.wf(),
            builder@ == old(self)@.at_position(location),
    {
        let at = location.resolve(&self.origin);
        self.origin = at;
        self.cursor = at;
        self
    }

    /// Freezes the tiles laid out so far under `name`, each place measured
    /// from the origin, in place of what was frozen under that name; then
    /// starts a new layout without tiles.
    pub fn to_blueprint(&mut self, name: &str) -> (builder: &mut Self)
        requires
            old(self).wf(),
        ensures
            *final(self) == *final(builder),
            builder.wf(),
            builder@ == old(self)@.frozen_as(name@),
    {
        let mut records: Vec<Placement> = Vec::new();
        let mut i: usize = 0;
        while i < self.pending.len()
            invariant
                i <= self.pending@.len(),
                self.origin.in_world(),
                all_in_world(self.pending@),
                spots(records@) == captured(spots(self.pending@), self.origin).take(i as int),
                *self == *old(self),
            decreases self.pending@.len() - i,
        {
            let placement = &self.pending[i];
            let record = Placement {
                location: placement.location.relative_to(&self.origin),
                tile_name: placement.tile_name.clone(),
            };
            let ghost before = records@;
            records.push(record);
            i = i + 1;
            assert(spots(records@) =~= spots(before).push(record@));
        }
        assert(spots(records@) =~= captured(spots(self.pending@), self.origin));
        let ghost table = self.blueprints@;
        match self.find_blueprint(name) {
            Some(at) => {
                self.blueprints[at].records = records;
                proof {
                    lemma_replace_blueprint(table, self.blueprints@, at as int);
                }
            },
            None => {
                let blueprint = Blueprint { name: name.to_owned(), records };
                self.blueprints.push(blueprint);
                proof {
                    lemma_push_blueprint(table, blueprint);
                }
            },
        }
        self.pending = Vec::new();
        assert(spots(self.pending@) =~= Seq::empty());
        self
    }

    /// Lays out the blueprint frozen under `name` once more: each of its
    /// tiles at its recorded place moved by the origin, after the tiles laid
    /// out so far. A tile whose name the palette no longer holds is left out.
    /// The blueprint stays as it is. Where no blueprint has that name, nothing
    /// changes.
    pub fn add_tiles_from_blueprint(&mut self, name: &str) -> (builder: &mut Self)
        requires
            old(self).wf(),
            old(self)@.blueprints.contains_key(name@) ==> replay_in_world(
                old(self)@.blueprints[name@],
                old(self)@.origin,
            ),
        ensures
            *final(self) == *final(builder),
            builder.wf(),
            builder@ == old(self)@.with_blueprint(name@),
    {
        match self.find_blueprint(name) {
            Some(at) => {
                let mut i: usize = 0;
                let ghost records = spots(self.blueprints@[at as int].records@);
                while i < self.blueprints[at].records.len()
                    invariant
                        at < self.blueprints@.len(),
                        i <= self.blueprints@[at as int].records@.len(),
                        records == spots(self.blueprints@[at as int].records@),
                        self.palette.wf(),
                        self.origin.in_world(),
                        replay_in_world(records, self.origin),
                        all_in_world(self.pending@),
                        spots(self.pending@) == spots(old(self).pending@) + replayed(
                            records.take(i as int),
                            self.origin,
                            self.palette@,
                        ),
                        self.palette == old(self).palette,
                        self.origin == old(self).origin,
                        self.cursor == old(self).cursor,
                        self.blueprints == old(self).blueprints,
                    decreases self.blueprints@[at as int].records@.len() - i,
                {
                    let ghost before = self.pending@;
                    let record = &self.blueprints[at].records[i];
                    assert(records.take(i + 1).drop_last() =~= records.take(i as int));
                    assert(records.take(i + 1).last() == records[i as int]);
                    if self.palette.contains(record.tile_name.as_str()) {
                        let placement = Placement {
                            location: record.location.placed_at(&self.origin),
                            tile_name: record.tile_name.clone(),
                        };
                        self.pending.push(placement);
                        assert(spots(self.pending@) =~= spots(before).push(placement@));
                    }
                    i = i + 1;
                }
                assert(records.take(i as int) =~= records);
            },
            None => {},
        }
        self
    }

    /// The tiles laid out so far, in order: one for each placement whose tile
    /// name the palette holds, stamped from the template of that name at the
    /// placement's place.
    pub fn iter(&self) -> (tiles: Vec<TileInstance>)
        requires
            self.wf(),
        ensures
            tiles@ == self@.tiles(),
            forall|i: int|
                0 <= i < tiles@.len() ==> (#[trigger] tiles@[i]).location.in_world()
                    && tiles@[i].location.frame == WorldLocation::World,
    {
        proof {
            self.lemma_wf();
            lemma_tiles_lie_where_placed(self@.placements, self@.palette);
        }
        let mut tiles: Vec<TileInstance> = Vec::new();
        let mut i: usize = 0;
        let ghost placements = spots(self.pending@);
        while i < self.pending.len()
            invariant
                i <= self.pending@.len(),
                placements == spots(self.pending@),
                self.palette.wf(),
                tiles@ == instantiated(placements.take(i as int), self.palette@),
            decreases self.pending@.len() - i,
        {
            let placement = &self.pending[i];
            assert(placements.take(i + 1).drop_last() =~= placements.take(i as int));
            match self.palette.get(placement.tile_name.as_str()) {
                Some(definition) => {
                    tiles.push(definition.stamp(placement.location));
                },
                None => {},
            }
            i = i + 1;
        }
        assert(placements.take(i as int) =~= placements);
        tiles
    }

    /// The place that blueprints are measured from and replayed at.
    pub fn origin(&self) -> (origin: Location)
        ensures
            origin == self@.origin,
    {
        self.origin
    }

    /// The place of the next tile of a run.
    pub fn cursor(&self) -> (cursor: Location)
        ensures
            cursor == self@.cursor,
    {
        self.cursor
    }

    /// The tiles laid out and not yet frozen, in order.
    pub fn placements(&self) -> (placements: &Vec<Placement>)
        ensures
            spots(placements@) == self@.placements,
    {
        &self.pending
    }

    /// The templates that names are looked up in.
    pub fn palette(&self) -> (palette: &TilePalette)
        ensures
            palette@ == self@.palette,
            self.wf() ==> palette.wf(),
    {
        &self.palette
    }

    /// Puts `palette` in place of the builder's palette. Placements and
    /// blueprints stay as they are.
    pub fn set_palette(&mut self, palette: TilePalette)
        requires
            old(self).wf(),
            palette.wf(),
        ensures
            final(self).wf(),
            final(self)@ == (Layout { palette: palette@, ..old(self)@ }),
    {
        self.palette = palette;
    }

    /// The records frozen under `name`.
    pub fn blueprint(&self, name: &str) -> (records: Option<&Vec<Placement>>)
        ensures
            match records {
                Some(records) => self@.blueprints.contains_key(name@) && self@.blueprints[name@]
                    == spots(records@),
                None => !self@.blueprints.contains_key(name@),
            },
    {
        match self.find_blueprint(name) {
            Some(at) => Some(&self.blueprints[at].records),
            None => None,
        }
    }

    /// Whether the blueprint frozen under `name`, replayed at the origin,
    /// stays within the world; true where no blueprint has that name.
    pub fn fits_blueprint(&self, name: &str) -> (fits: bool)
        ensures
            fits == (self@.blueprints.contains_key(name@) ==> replay_in_world(
                self@.blueprints[name@],
                self@.origin,
            )),
    {
        match self.find_blueprint(name) {
            Some(at) => {
                let records = &self.blueprints[at].records;
                let mut i: usize = 0;
                while i < records.len()
                    invariant
                        i <= records@.len(),
                        self@.blueprints.contains_key(name@),
                        self@.blueprints[name@] == spots(records@),
                        forall|k: int|
                            0 <= k < i ==> (#[trigger] spots(records@)[k]).location.lands_in_world(
                                self.origin.x as int,
                                self.origin.y as int,
                                self.origin.z as int,
                            ),
                    decreases records@.len() - i,
                {
                    if !records[i].location.fits_shift(&self.origin) {
                        return false;
                    }
                    assert(spots(records@)[i as int].location == records@[i as int].location);
                    i = i + 1;
                }
                true
            },
            None => true,
        }
    }

    /// Whether `area`, anchored at `origin`, stays within the world.
    pub fn fits_area(&self, origin: &Location, area: &Area) -> (fits: bool)
        ensures
            fits == ((origin.frame == WorldLocation::Local ==> origin.lands_in_world(
                self@.origin.x as int,
                self@.origin.y as int,
                self@.origin.z as int,
            )) && area_in_world(origin.spec_resolve(self@.origin), *area)),
    {
        let resolves = match origin.frame {
            WorldLocation::World => true,
            WorldLocation::Local => origin.fits_shift(&self.origin),
        };
        if !resolves {
            return false;
        }
        if area.width == 0 || area.height == 0 {
            return true;
        }
        let anchor = origin.resolve(&self.origin);
        anchor.is_in_world() && anchor.fits_steps(RelativePosition::RightOf, area.width - 1)
            && anchor.fits_steps(RelativePosition::Below, area.height - 1)
    }

    /// Whether origin and cursor can be moved to `location`.
    pub fn fits_position(&self, location: &Location) -> (fits: bool)
        ensures
            fits == match location.frame {
                WorldLocation::World => location.in_world(),
                WorldLocation::Local => location.lands_in_world(
                    self@.origin.x as int,
                    self@.origin.y as int,
                    self@.origin.z as int,
                ),
            },
    {
        match location.frame {
            WorldLocation::World => location.is_in_world(),
            WorldLocation::Local => location.fits_shift(&self.origin),
        }
    }

    /// The place of the first blueprint named `name`.
    fn find_blueprint(&self, name: &str) -> (at: Option<usize>)
        ensures
            match at {
                Some(i) => i < self.blueprints@.len() && self.blueprints@[i as int].name@ == name@
                    && (forall|k: int| 0 <= k < i ==> self.blueprints@[k].name@ != name@)
                    && self@.blueprints.contains_key(name@) && self@.blueprints[name@] == spots(
                    self.blueprints@[i as int].records@,
                ),
                None => !self@.blueprints.contains_key(name@) && forall|k: int|
                    0 <= k < self.blueprints@.len() ==> self.blueprints@[k].name@ != name@,
            },
    {
        let wanted = name.to_owned();
        let mut i: usize = 0;
        while i < self.blueprints.len()
            invariant
                i <= self.blueprints@.len(),
                wanted@ == name@,
                forall|k: int| 0 <= k < i ==> self.blueprints@[k].name@ != name@,
            decreases self.blueprints@.len() - i,
        {
            if self.blueprints[i].name == wanted {
                proof {
                    lemma_first_named_at(self.blueprints@, i as int, name@);
                }
                return Some(i);
            }
            i = i + 1;
        }
        proof {
            lemma_first_named_absent(self.blueprints@, name@);
        }
        None
    }
}

/// The first blueprint with a name is the one that the name stands for.
proof fn lemma_first_named_at(table: Seq<Blueprint>, i: int, name: Seq<char>)
    requires
        0 <= i < table.len(),
        table[i].name@ == name,
        forall|k: int| 0 <= k < i ==> table[k].name@ != name,
    ensures
        first_named(table, name) == Some(spots(table[i].records@)),
    decreases table.len(),
{
    if i < table.len() - 1 {
        lemma_first_named_at(table.drop_last(), i, name);
    } else {
        lemma_first_named_absent(table.drop_last(), name);
    }
}

/// A name that no blueprint has stands for nothing.
proof fn lemma_first_named_absent(table: Seq<Blueprint>, name: Seq<char>)
    requires
        forall|k: int| 0 <= k < table.len() ==> table[k].name@ != name,
    ensures
        first_named(table, name) is None,
    decreases table.len(),
{
    if table.len() > 0 {
        lemma_first_named_absent(table.drop_last(), name);
    }
}

/// A name stands for the same in two tables that agree, place by place, on
/// the names and on the records filed under that name.
proof fn lemma_first_named_agrees(before: Seq<Blueprint>, after: Seq<Blueprint>, name: Seq<char>)
    requires
        before.len() == after.len(),
        forall|k: int| 0 <= k < before.len() ==> before[k].name@ == after[k].name@,
        forall|k: int|
            0 <= k < before.len() && before[k].name@ == name ==> before[k].records@
                == after[k].records@,
    ensures
        first_named(before, name) == first_named(after, name),
    decreases before.len(),
{
    if before.len() > 0 {
        lemma_first_named_agrees(before.drop_last(), after.drop_last(), name);
    }
}

/// Replacing the records of the first blueprint with a name files the new
/// records under that name and leaves the other names as they were.
proof fn lemma_replace_blueprint(before: Seq<Blueprint>, after: Seq<Blueprint>, i: int)
    requires
        0 <= i < before.len(),
        before.len() == after.len(),
        forall|k: int| 0 <= k < i ==> before[k].name@ != before[i].name@,
        forall|k: int| 0 <= k < before.len() ==> before[k].name@ == after[k].name@,
        forall|k: int| 0 <= k < before.len() && k != i ==> before[k] == after[k],
    ensures
        by_name(after) == by_name(before).insert(before[i].name@, spots(after[i].records@)),
{
    let name = before[i].name@;
    lemma_first_named_at(after, i, name);
    assert forall|other: Seq<char>| other != name implies first_named(before, other)
        == first_named(after, other) by {
        lemma_first_named_agrees(before, after, other);
    }
}

/// Appending a blueprint under a name that no blueprint has files its records
/// under that name and leaves the other names as they were.
proof fn lemma_push_blueprint(before: Seq<Blueprint>, blueprint: Blueprint)
    requires
        forall|k: int| 0 <= k < before.len() ==> before[k].name@ != blueprint.name@,
    ensures
        by_name(before.push(blueprint)) == by_name(before).insert(
            blueprint.name@,
            spots(blueprint.records@),
        ),
{
    let after = before.push(blueprint);
    assert(after.drop_last() =~= before);
    lemma_first_named_absent(before, blueprint.name@);
}

/// A replay at `origin` lays out one tile for each record, in order, under
/// the record's name and at the record's place moved by `origin`, provided
/// that the palette holds every name.
pub proof fn lemma_replay_moves_every_record(
    records: Seq<Spot>,
    origin: Location,
    palette: Map<Seq<char>, TileDefinition>,
)
    requires
        all_known(records, palette),
    ensures
        replayed(records, origin, palette) == moved(records, origin),
    decreases records.len(),
{
    if records.len() > 0 {
        let before = records.drop_last();
        lemma_replay_moves_every_record(before, origin, palette);
    }
}

/// A blueprint replayed at the origin `(dx, dy, dz)` lays out its tiles at
/// the recorded places, each shifted by `(dx, dy, dz)`, provided that the
/// palette holds every name and the shifted places lie within the world.
pub proof fn lemma_replay_shifts_by_origin(
    records: Seq<Spot>,
    origin: Location,
    palette: Map<Seq<char>, TileDefinition>,
)
    requires
        all_known(records, palette),
        replay_in_world(records, origin),
    ensures
        replayed(records, origin, palette).len() == records.len(),
        forall|i: int|
            0 <= i < records.len() ==> {
                let laid = #[trigger] replayed(records, origin, palette)[i];
                &&& laid.location.x == records[i].location.x + origin.x
                &&& laid.location.y == records[i].location.y + origin.y
                &&& laid.location.z == records[i].location.z + origin.z
                &&& laid.location.frame == WorldLocation::World
                &&& laid.tile_name == records[i].tile_name
            },
{
    lemma_replay_moves_every_record(records, origin, palette);
}

/// Tiles frozen at the origin `from` and replayed at the origin `to` come out
/// in the same order and under the same names, each shifted by the way from
/// `from` to `to`; replayed at `from` itself they come out where they were.
pub proof fn lemma_replay_of_capture(
    placements: Seq<Spot>,
    from: Location,
    to: Location,
    palette: Map<Seq<char>, TileDefinition>,
)
    requires
        all_known(placements, palette),
        from.in_world(),
        to.in_world(),
        forall|i: int|
            0 <= i < placements.len() ==> (#[trigger] placements[i]).location.in_world()
                && placements[i].location.lands_in_world(
                to.x - from.x,
                to.y - from.y,
                to.z - from.z,
            ),
    ensures
        replayed(captured(placements, from), to, palette).len() == placements.len(),
        forall|i: int|
            0 <= i < placements.len() ==> {
                let laid = #[trigger] replayed(captured(placements, from), to, palette)[i];
                &&& laid.location.x == placements[i].location.x + (to.x - from.x)
                &&& laid.location.y == placements[i].location.y + (to.y - from.y)
                &&& laid.location.z == placements[i].location.z + (to.z - from.z)
                &&& laid.location.frame == WorldLocation::World
                &&& laid.tile_name == placements[i].tile_name
            },
{
    let records = captured(placements, from);
    lemma_replay_shifts_by_origin(records, to, palette);
}

/// Tiles lie where they were placed: where every placement is absolute and
/// within the world, so is every tile that the placements stand for.
pub proof fn lemma_tiles_lie_where_placed(
    placements: Seq<Spot>,
    palette: Map<Seq<char>, TileDefinition>,
)
    requires
        forall|i: int|
            0 <= i < placements.len() ==> (#[trigger] placements[i]).location.in_world()
                && placements[i].location.frame == WorldLocation::World,
    ensures
        forall|i: int|
            0 <= i < instantiated(placements, palette).len() ==> (#[trigger] instantiated(
                placements,
                palette,
            )[i]).location.in_world() && instantiated(placements, palette)[i].location.frame
                == WorldLocation::World,
    decreases placements.len(),
{
    if placements.len() > 0 {
        lemma_tiles_lie_where_placed(placements.drop_last(), palette);
    }
}

/// Where the palette holds every name, each placement stands for one tile, in
/// order: the tile stamped from the template of its name at its place.
pub proof fn lemma_every_placement_is_a_tile(
    placements: Seq<Spot>,
    palette: Map<Seq<char>, TileDefinition>,
)
    requires
        all_known(placements, palette),
    ensures
        instantiated(placements, palette).len() == placements.len(),
        forall|i: int|
            0 <= i < placements.len() ==> #[trigger] instantiated(placements, palette)[i]
                == palette[placements[i].tile_name].spec_stamp(placements[i].location),
    decreases placements.len(),
{
    if placements.len() > 0 {
        let before = placements.drop_last();
        lemma_every_placement_is_a_tile(before, palette);
    }
}

} // verus!
