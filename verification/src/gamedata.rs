//! Static game data: items, moves and species, by their constants and by the
//! names the game prints.

use vstd::prelude::*;

use crate::bag::{fits, reads_as};
use crate::text::same;

verus! {

/// A row of a data table: its constant and its printed name.
pub trait Entry {
    spec fn keyed(&self) -> Seq<char>;

    spec fn named(&self) -> Seq<char>;

    fn key(&self) -> (s: &str)
        ensures
            s@ == self.keyed(),
    ;

    fn printed(&self) -> (s: &str)
        ensures
            s@ == self.named(),
    ;
}

#[derive(Debug, Clone, PartialEq, Eq)]
pub struct ItemData {
    pub key: String,
    pub name: String,
    pub pocket: Option<String>,
    /// 0 where the item is not sold.
    pub price: u32,
}

#[derive(Debug, Clone, PartialEq, Eq)]
pub struct MoveData {
    pub key: String,
    pub name: String,
    pub power: u8,
    pub accuracy: u8,
    pub pp: u8,
    /// The move's type.
    pub kind: Option<String>,
    pub effect: Option<String>,
}

#[derive(Debug, Clone, PartialEq, Eq)]
pub struct SpeciesData {
    pub key: String,
    /// The name as texts print it. (A battle's HUD goes by the constant: see
    /// [`crate::party::display_name`].)
    pub name: String,
    /// Base HP, Attack, Defense, Speed, Sp. Atk and Sp. Def.
    pub base: [u8; 6],
    pub types: Vec<String>,
    /// Constants of the species that it evolves into.
    pub evolutions: Vec<String>,
}

impl Entry for ItemData {
    open spec fn keyed(&self) -> Seq<char> {
        self.key@
    }

    open spec fn named(&self) -> Seq<char> {
        self.name@
    }

    fn key(&self) -> (s: &str) {
        &self.key
    }

    fn printed(&self) -> (s: &str) {
        &self.name
    }
}

impl Entry for MoveData {
    open spec fn keyed(&self) -> Seq<char> {
        self.key@
    }

    open spec fn named(&self) -> Seq<char> {
        self.name@
    }

    fn key(&self) -> (s: &str) {
        &self.key
    }

    fn printed(&self) -> (s: &str) {
        &self.name
    }
}

impl Entry for SpeciesData {
    open spec fn keyed(&self) -> Seq<char> {
        self.key@
    }

    open spec fn named(&self) -> Seq<char> {
        self.name@
    }

    fn key(&self) -> (s: &str) {
        &self.key
    }

    fn printed(&self) -> (s: &str) {
        &self.name
    }
}

/// Row `i` is the only one whose printed name could read as `read`.
pub open spec fn only_fit<T: Entry>(table: Seq<T>, read: Seq<char>, i: int) -> bool {
    &&& 0 <= i < table.len()
    &&& reads_as(table[i].named(), read)
    &&& forall|j: int|
        0 <= j < table.len() && j != i ==> !reads_as((#[trigger] table[j]).named(), read)
}

/// The one row whose printed name could read as `read`.
pub open spec fn sole_fit<T: Entry>(table: Seq<T>, read: Seq<char>) -> Option<int> {
    if exists|i: int| only_fit(table, read, i) {
        Some(choose|i: int| only_fit(table, read, i))
    } else {
        None
    }
}

/// Row `i` is the first with this constant.
pub open spec fn first_key<T: Entry>(table: Seq<T>, key: Seq<char>, i: int) -> bool {
    &&& 0 <= i < table.len()
    &&& table[i].keyed() == key
    &&& forall|j: int| 0 <= j < i ==> (#[trigger] table[j]).keyed() != key
}

/// The first row with this constant.
pub open spec fn row_of<T: Entry>(table: Seq<T>, key: Seq<char>) -> Option<int> {
    if exists|i: int| first_key(table, key, i) {
        Some(choose|i: int| first_key(table, key, i))
    } else {
        None
    }
}

/// The one row whose printed name could read as `read`.
pub fn find_named<T: Entry>(table: &Vec<T>, read: &str) -> (r: Option<usize>)
    ensures
        match r {
            Some(i) => sole_fit(table@, read@) == Some(i as int) && only_fit(
                table@,
                read@,
                i as int,
            ),
            None => sole_fit(table@, read@) is None,
        },
{
    let mut found: Option<usize> = None;
    let mut i: usize = 0;
    while i < table.len()
        invariant
            i <= table@.len(),
            match found {
                Some(f) => 0 <= f < i && reads_as(table@[f as int].named(), read@) && forall|j: int|
                    0 <= j < i && j != f ==> !reads_as((#[trigger] table@[j]).named(), read@),
                None => forall|j: int|
                    0 <= j < i ==> !reads_as((#[trigger] table@[j]).named(), read@),
            },
        decreases table@.len() - i,
    {
        if fits(table[i].printed(), read) {
            match found {
                Some(f) => {
                    proof {
                        assert forall|k: int| !only_fit(table@, read@, k) by {
                            if only_fit(table@, read@, k) {
                                assert(!reads_as(table@[f as int].named(), read@) || k == f);
                                assert(!reads_as(table@[i as int].named(), read@) || k == i);
                            }
                        }
                    }
                    return None;
                },
                None => found = Some(i),
            }
        }
        i += 1;
    }
    proof {
        match found {
            Some(f) => {
                assert(only_fit(table@, read@, f as int));
                let c = choose|k: int| only_fit(table@, read@, k);
                assert(c == f) by {
                    assert(reads_as(table@[c].named(), read@));
                }
            },
            None => {},
        }
    }
    found
}

/// The first row with this constant.
pub fn find_key<T: Entry>(table: &Vec<T>, key: &str) -> (r: Option<usize>)
    ensures
        match r {
            Some(i) => row_of(table@, key@) == Some(i as int) && first_key(table@, key@, i as int),
            None => row_of(table@, key@) is None && forall|i: int|
                0 <= i < table@.len() ==> (#[trigger] table@[i]).keyed() != key@,
        },
{
    let mut i: usize = 0;
    while i < table.len()
        invariant
            i <= table@.len(),
            forall|j: int| 0 <= j < i ==> (#[trigger] table@[j]).keyed() != key@,
        decreases table@.len() - i,
    {
        if same(table[i].key(), key) {
            proof {
                assert(first_key(table@, key@, i as int));
                let c = choose|k: int| first_key(table@, key@, k);
                assert(c == i) by {
                    assert(table@[c].keyed() == key@);
                    assert(table@[i as int].keyed() == key@);
                }
            }
            return Some(i);
        }
        i += 1;
    }
    None
}

/// What a mart sells: the name of its map and the items' constants.
#[derive(Debug, Clone, PartialEq, Eq)]
pub struct Mart {
    pub map: String,
    pub items: Vec<String>,
}

/// A ball that may be thrown, and ten times its catch multiplier.
#[derive(Debug, Clone, PartialEq, Eq)]
pub struct BallData {
    pub key: String,
    pub multiplier: u32,
}

impl Entry for BallData {
    open spec fn keyed(&self) -> Seq<char> {
        self.key@
    }

    open spec fn named(&self) -> Seq<char> {
        self.key@
    }

    fn key(&self) -> (s: &str) {
        &self.key
    }

    fn printed(&self) -> (s: &str) {
        &self.key
    }
}

/// The tables.
#[derive(Debug, Clone, PartialEq, Eq)]
pub struct GameData {
    pub items: Vec<ItemData>,
    pub moves: Vec<MoveData>,
    pub species: Vec<SpeciesData>,
    pub marts: Vec<Mart>,
    /// The balls that may be thrown (not the Master Ball) with ten times their
    /// catch multipliers, whether or not they are among the items.
    pub balls: Vec<BallData>,
}

impl GameData {
    /// The item that is printed like `read` (`?` for an unread letter).
    pub open spec fn item_read(self, read: Seq<char>) -> Option<ItemData> {
        match sole_fit(self.items@, read) {
            Some(i) => Some(self.items@[i]),
            None => None,
        }
    }

    pub open spec fn item_of(self, key: Seq<char>) -> Option<ItemData> {
        match row_of(self.items@, key) {
            Some(i) => Some(self.items@[i]),
            None => None,
        }
    }

    /// The move that is printed like `read` (`?` for an unread letter).
    pub open spec fn move_read(self, read: Seq<char>) -> Option<MoveData> {
        match sole_fit(self.moves@, read) {
            Some(i) => Some(self.moves@[i]),
            None => None,
        }
    }

    pub open spec fn move_of(self, key: Seq<char>) -> Option<MoveData> {
        match row_of(self.moves@, key) {
            Some(i) => Some(self.moves@[i]),
            None => None,
        }
    }

    /// The species that is printed like `read` (`?` for an unread letter).
    pub open spec fn species_read(self, read: Seq<char>) -> Option<SpeciesData> {
        match sole_fit(self.species@, read) {
            Some(i) => Some(self.species@[i]),
            None => None,
        }
    }

    pub open spec fn species_of(self, key: Seq<char>) -> Option<SpeciesData> {
        match row_of(self.species@, key) {
            Some(i) => Some(self.species@[i]),
            None => None,
        }
    }

    pub fn item_named(&self, read: &str) -> (r: Option<&ItemData>)
        ensures
            match r {
                Some(item) => self.item_read(read@) == Some(*item),
                None => self.item_read(read@) is None,
            },
    {
        match find_named(&self.items, read) {
            Some(i) => Some(&self.items[i]),
            None => None,
        }
    }

    pub fn item(&self, key: &str) -> (r: Option<&ItemData>)
        ensures
            match r {
                Some(item) => self.item_of(key@) == Some(*item) && item.key@ == key@,
                None => self.item_of(key@) is None,
            },
    {
        match find_key(&self.items, key) {
            Some(i) => Some(&self.items[i]),
            None => None,
        }
    }

    pub fn move_named(&self, read: &str) -> (r: Option<&MoveData>)
        ensures
            match r {
                Some(mv) => self.move_read(read@) == Some(*mv),
                None => self.move_read(read@) is None,
            },
    {
        match find_named(&self.moves, read) {
            Some(i) => Some(&self.moves[i]),
            None => None,
        }
    }

    pub fn move_(&self, key: &str) -> (r: Option<&MoveData>)
        ensures
            match r {
                Some(mv) => self.move_of(key@) == Some(*mv) && mv.key@ == key@,
                None => self.move_of(key@) is None,
            },
    {
        match find_key(&self.moves, key) {
            Some(i) => Some(&self.moves[i]),
            None => None,
        }
    }

    pub fn species_named(&self, read: &str) -> (r: Option<&SpeciesData>)
        ensures
            match r {
                Some(s) => self.species_read(read@) == Some(*s),
                None => self.species_read(read@) is None,
            },
    {
        match find_named(&self.species, read) {
            Some(i) => Some(&self.species[i]),
            None => None,
        }
    }

    pub fn species(&self, key: &str) -> (r: Option<&SpeciesData>)
        ensures
            match r {
                Some(s) => self.species_of(key@) == Some(*s) && s.key@ == key@,
                None => self.species_of(key@) is None,
            },
    {
        match find_key(&self.species, key) {
            Some(i) => Some(&self.species[i]),
            None => None,
        }
    }
}

} // verus!
