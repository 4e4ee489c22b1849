//! The sprite library, and the sprite that each family of tiles is drawn
//! with.

use vstd::prelude::*;
use crate::tile::{Sprite, TileType};

verus! {

/// Sprites by name. Of two sprites with one name the earlier is found.
pub struct SpriteLibrary {
    sprites: Vec<Sprite>,
}

/// Looks up the sprite of a tile.
pub struct TileLoader;

/// The first sprite of `sprites` named `name`.
pub open spec fn first_named(sprites: Seq<Sprite>, name: Seq<char>) -> Option<Sprite>
    decreases sprites.len(),
{
    if sprites.len() == 0 {
        None
    } else {
        match first_named(sprites.drop_last(), name) {
            Some(sprite) => Some(sprite),
            None => if sprites.last().name@ == name {
                Some(sprites.last())
            } else {
                None
            },
        }
    }
}

impl View for SpriteLibrary {
    type V = Seq<Sprite>;

    closed spec fn view(&self) -> Seq<Sprite> {
        self.sprites@
    }
}

impl SpriteLibrary {
    /// A library without sprites.
    pub fn new() -> (library: SpriteLibrary)
        ensures
            library@ == Seq::<Sprite>::empty(),
    {
        SpriteLibrary { sprites: Vec::new() }
    }

    /// Adds `sprite` behind the sprites that the library holds.
    pub fn add(&mut self, sprite: Sprite)
        ensures
            final(self)@ == old(self)@.push(sprite),
    {
        self.sprites.push(sprite);
    }

    /// The number of sprites.
    pub fn len(&self) -> (n: usize)
        ensures
            n == self@.len(),
    {
        self.sprites.len()
    }

    /// The first sprite named `name`.
    pub fn get(&self, name: &str) -> (found: Option<&Sprite>)
        ensures
            match found {
                Some(sprite) => first_named(self@, name@) == Some(*sprite),
                None => first_named(self@, name@) is None,
            },
    {
        let wanted = name.to_owned();
        let mut i: usize = 0;
        while i < self.sprites.len()
            invariant
                i <= self.sprites@.len(),
                wanted@ == name@,
                forall|k: int| 0 <= k < i ==> self.sprites@[k].name@ != name@,
            decreases self.sprites@.len() - i,
        {
            if self.sprites[i].name == wanted {
                proof {
                    lemma_first_named_at(self.sprites@, i as int, name@);
                }
                return Some(&self.sprites[i]);
            }
            i = i + 1;
        }
        proof {
            lemma_first_named_absent(self.sprites@, name@);
        }
        None
    }
}

impl TileLoader {
    /// The sprite that tiles of the family `tile_type` are drawn with, if the
    /// library holds it: the floor sprite for all kinds of ground and for the
    /// key, else the sprite that is named like the family.
    pub fn sprite_for_tiletype<'a>(tile_type: &TileType, sprites: &'a SpriteLibrary) -> (sprite:
        Option<&'a Sprite>)
        ensures
            match sprite {
                Some(sprite) => first_named(sprites@, tile_type.spec_sprite_name()) == Some(
                    *sprite,
                ),
                None => first_named(sprites@, tile_type.spec_sprite_name()) is None,
            },
    {
        sprites.get(tile_type.sprite_name())
    }
}

/// A sprite is found under its name if no sprite before it has that name.
proof fn lemma_first_named_at(sprites: Seq<Sprite>, i: int, name: Seq<char>)
    requires
        0 <= i < sprites.len(),
        sprites[i].name@ == name,
        forall|k: int| 0 <= k < i ==> sprites[k].name@ != name,
    ensures
        first_named(sprites, name) == Some(sprites[i]),
    decreases sprites.len(),
{
    if i < sprites.len() - 1 {
        lemma_first_named_at(sprites.drop_last(), i, name);
    } else {
        lemma_first_named_absent(sprites.drop_last(), name);
    }
}

/// Nothing is found under a name that no sprite has.
proof fn lemma_first_named_absent(sprites: Seq<Sprite>, name: Seq<char>)
    requires
        forall|k: int| 0 <= k < sprites.len() ==> sprites[k].name@ != name,
    ensures
        first_named(sprites, name) is None,
    decreases sprites.len(),
{
    if sprites.len() > 0 {
        lemma_first_named_absent(sprites.drop_last(), name);
    }
}

} // verus!
