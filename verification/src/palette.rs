//! The palette: tile templates filed under names.

use vstd::prelude::*;
use crate::tile::TileDefinition;

verus! {

/// One template of the palette with the name it is filed under.
struct PaletteEntry {
    key: String,
    definition: TileDefinition,
}

/// Tile templates by name. No name is filed twice.
pub struct TilePalette {
    entries: Vec<PaletteEntry>,
}

/// The place of `key` among `entries`, if it is filed.
spec fn position(entries: Seq<PaletteEntry>, key: Seq<char>) -> int {
    choose|i: int| 0 <= i < entries.len() && entries[i].key@ == key
}

/// Some entry is filed under `key`.
spec fn filed(entries: Seq<PaletteEntry>, key: Seq<char>) -> bool {
    exists|i: int| 0 <= i < entries.len() && entries[i].key@ == key
}

/// No two entries have the same name.
spec fn distinct(entries: Seq<PaletteEntry>) -> bool {
    forall|i: int, j: int|
        0 <= i < entries.len() && 0 <= j < entries.len() && entries[i].key@ == entries[j].key@
            ==> i == j
}

/// The templates of `entries` by name.
spec fn as_map(entries: Seq<PaletteEntry>) -> Map<Seq<char>, TileDefinition> {
    Map::new(
        |key: Seq<char>| filed(entries, key),
        |key: Seq<char>| entries[position(entries, key)].definition,
    )
}

impl View for TilePalette {
    type V = Map<Seq<char>, TileDefinition>;

    closed spec fn view(&self) -> Map<Seq<char>, TileDefinition> {
        as_map(self.entries@)
    }
}

impl TilePalette {
    /// No name is filed twice.
    pub closed spec fn wf(&self) -> bool {
        distinct(self.entries@)
    }

    /// The template filed under `name`, if there is one.
    pub open spec fn lookup(self, name: Seq<char>) -> Option<TileDefinition> {
        if self@.contains_key(name) {
            Some(self@[name])
        } else {
            None
        }
    }

    /// A palette without templates.
    pub fn new() -> (palette: TilePalette)
        ensures
            palette.wf(),
            palette@ == Map::<Seq<char>, TileDefinition>::empty(),
    {
        let palette = TilePalette { entries: Vec::new() };
        palette
    }

    /// Where `name` is filed, if it is.
    fn find(&self, name: &str) -> (at: Option<usize>)
        requires
            self.wf(),
        ensures
            match at {
                Some(i) => i < self.entries@.len() && self.entries@[i as int].key@ == name@
                    && position(self.entries@, name@) == i,
                None => !filed(self.entries@, name@),
            },
    {
        let wanted = name.to_owned();
        let mut i: usize = 0;
        while i < self.entries.len()
            invariant
                self.wf(),
                i <= self.entries@.len(),
                wanted@ == name@,
                forall|k: int| 0 <= k < i ==> self.entries@[k].key@ != name@,
            decreases self.entries@.len() - i,
        {
            if self.entries[i].key == wanted {
                return Some(i);
            }
            i = i + 1;
        }
        None
    }

    /// The number of templates.
    pub fn len(&self) -> (n: usize)
        requires
            self.wf(),
        ensures
            n == self@.dom().len(),
            self@.dom().finite(),
    {
        proof {
            lemma_domain_size(self.entries@);
        }
        self.entries.len()
    }

    /// Whether a template is filed under `name`.
    pub fn contains(&self, name: &str) -> (found: bool)
        requires
            self.wf(),
        ensures
            found == self@.contains_key(name@),
    {
        self.find(name).is_some()
    }

    /// The template filed under `name`.
    pub fn get(&self, name: &str) -> (found: Option<&TileDefinition>)
        requires
            self.wf(),
        ensures
            match found {
                Some(definition) => self.lookup(name@) == Some(*definition),
                None => self.lookup(name@) is None,
            },
    {
        match self.find(name) {
            Some(i) => Some(&self.entries[i].definition),
            None => None,
        }
    }

    /// The template filed under `name`, to be changed in place.
    pub fn get_mut(&mut self, name: &str) -> (found: Option<&mut TileDefinition>)
        requires
            old(self).wf(),
        ensures
            final(self).wf(),
            match found {
                Some(definition) => old(self).lookup(name@) == Some(*definition) && final(self)@
                    == old(self)@.insert(name@, *final(definition)),
                None => old(self).lookup(name@) is None && final(self)@ == old(self)@,
            },
    {
        match self.find(name) {
            Some(i) => {
                let definition = &mut self.entries[i].definition;
                proof {
                    lemma_replace(old(self).entries@, i as int, *final(definition));
                }
                Some(definition)
            },
            None => None,
        }
    }

    /// Files `definition` under `name`, in place of what was filed there.
    pub fn insert(&mut self, name: String, definition: TileDefinition)
        requires
            old(self).wf(),
        ensures
            final(self).wf(),
            final(self)@ == old(self)@.insert(name@, definition),
    {
        match self.find(name.as_str()) {
            Some(i) => {
                proof {
                    lemma_replace(self.entries@, i as int, definition);
                }
                self.entries[i].definition = definition;
            },
            None => {
                let entry = PaletteEntry { key: name, definition };
                proof {
                    lemma_push(self.entries@, entry);
                }
                self.entries.push(entry);
            },
        }
    }

    /// Takes out the template filed under `name`.
    pub fn remove(&mut self, name: &str) -> (taken: Option<TileDefinition>)
        requires
            old(self).wf(),
        ensures
            final(self).wf(),
            taken == old(self).lookup(name@),
            final(self)@ == old(self)@.remove(name@),
    {
        match self.find(name) {
            Some(i) => {
                proof {
                    lemma_remove(self.entries@, i as int);
                }
                let entry = self.entries.remove(i);
                Some(entry.definition)
            },
            None => {
                None
            },
        }
    }
}

impl Clone for TilePalette {
    fn clone(&self) -> (copy: TilePalette)
        ensures
            copy@ == self@,
            self.wf() ==> copy.wf(),
    {
        let mut entries: Vec<PaletteEntry> = Vec::new();
        let mut i: usize = 0;
        while i < self.entries.len()
            invariant
                i <= self.entries@.len(),
                entries@ == self.entries@.take(i as int),
            decreases self.entries@.len() - i,
        {
            entries.push(
                PaletteEntry {
                    key: self.entries[i].key.clone(),
                    definition: self.entries[i].definition.clone(),
                },
            );
            i = i + 1;
        }
        assert(entries@ =~= self.entries@);
        TilePalette { entries }
    }
}

/// Replacing the template of one entry files the new template under that
/// entry's name and leaves the others as they were.
proof fn lemma_replace(entries: Seq<PaletteEntry>, i: int, definition: TileDefinition)
    requires
        distinct(entries),
        0 <= i < entries.len(),
    ensures
        distinct(entries.update(i, PaletteEntry { key: entries[i].key, definition })),
        as_map(entries.update(i, PaletteEntry { key: entries[i].key, definition })) == as_map(
            entries,
        ).insert(entries[i].key@, definition),
{
    let after = entries.update(i, PaletteEntry { key: entries[i].key, definition });
    assert forall|j: int| 0 <= j < entries.len() implies after[j].key@ == entries[j].key@ by {}
}

/// Appending an entry under a new name files its template and leaves the
/// others as they were.
proof fn lemma_push(entries: Seq<PaletteEntry>, entry: PaletteEntry)
    requires
        distinct(entries),
        !filed(entries, entry.key@),
    ensures
        distinct(entries.push(entry)),
        as_map(entries.push(entry)) == as_map(entries).insert(entry.key@, entry.definition),
{
    let after = entries.push(entry);
    assert forall|key: Seq<char>| filed(after, key) <==> (filed(entries, key) || key == entry.key@) by {
        if filed(entries, key) {
            let j = position(entries, key);
            assert(after[j].key@ == key);
        }
        if key == entry.key@ {
            assert(after[entries.len() as int].key@ == key);
        }
    }
}

/// Taking an entry out removes its name and leaves the others as they were.
proof fn lemma_remove(entries: Seq<PaletteEntry>, i: int)
    requires
        distinct(entries),
        0 <= i < entries.len(),
    ensures
        distinct(entries.remove(i)),
        as_map(entries.remove(i)) == as_map(entries).remove(entries[i].key@),
{
    let after = entries.remove(i);
    assert forall|key: Seq<char>| filed(after, key) <==> (filed(entries, key) && key
        != entries[i].key@) by {
        if filed(entries, key) && key != entries[i].key@ {
            let j = position(entries, key);
            let j1 = if j < i { j } else { j - 1 };
            assert(after[j1].key@ == key);
        }
    }
}

/// A palette of distinct names has as many names as entries.
proof fn lemma_domain_size(entries: Seq<PaletteEntry>)
    requires
        distinct(entries),
    ensures
        as_map(entries).dom().finite(),
        as_map(entries).dom().len() == entries.len(),
    decreases entries.len(),
{
    if entries.len() == 0 {
        assert(as_map(entries).dom() =~= Set::<Seq<char>>::empty());
    } else {
        let rest = entries.drop_last();
        let last = entries.last();
        lemma_domain_size(rest);
        assert forall|key: Seq<char>|
            as_map(entries).dom().contains(key) <==> as_map(rest).dom().insert(last.key@).contains(
                key,
            ) by {
            if filed(entries, key) {
                let i = position(entries, key);
                if i < rest.len() {
                    assert(rest[i].key@ == key);
                }
            }
        }
        assert(as_map(entries).dom() =~= as_map(rest).dom().insert(last.key@));
    }
}

} // verus!
