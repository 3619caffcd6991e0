//! The world model as the walk reads it: maps with their tiles, warps,
//! objects and neighbours.

use vstd::prelude::*;

use crate::input::{Button, Direction};
use crate::text::same;

verus! {

/// A tile's position on its map.
pub type Spot = (i32, i32);

/// One step of a walk: a push toward `dir` that ends on `to`.
#[derive(Debug, Clone, Copy, PartialEq, Eq)]
pub struct Step {
    pub dir: Direction,
    pub to: Spot,
}

/// What a tile does.
#[derive(Debug, Clone, Copy, PartialEq, Eq, Structural)]
pub enum Behavior {
    Plain,
    /// People behind it are talked to across it.
    Counter,
    Door,
    /// A mat that warps when pushed along its arrow.
    Arrow(Direction),
    /// Stairs that warp when pushed along them.
    Stair(Direction),
}

#[derive(Debug, Clone, Copy, PartialEq, Eq, Structural)]
pub struct Tile {
    pub behavior: Behavior,
    pub collision: u8,
    /// Wild Pokémon appear here.
    pub encounters: bool,
}

/// A tile that leads elsewhere.
#[derive(Debug, Clone)]
pub struct Warp {
    pub x: i32,
    pub y: i32,
    /// The constant of the map it leads to.
    pub dest_map: String,
    /// The warp of that map it leads to; negative where the game decides.
    pub dest_warp: i32,
    /// Where the player ends up: the map's name and the tile.
    pub lands: Option<Place>,
}

/// A tile of a map.
#[derive(Debug, Clone)]
pub struct Place {
    pub map: String,
    pub x: i32,
    pub y: i32,
}

#[verifier::ext_equal]
pub struct PlaceV {
    pub map: Seq<char>,
    pub x: i32,
    pub y: i32,
}

impl View for Place {
    type V = PlaceV;

    open spec fn view(&self) -> PlaceV {
        PlaceV { map: self.map@, x: self.x, y: self.y }
    }
}

impl Place {
    pub fn same(&self, other: &Place) -> (r: bool)
        ensures
            r == (self@ == other@),
    {
        self.x == other.x && self.y == other.y && self.map == other.map
    }

    pub fn copy(&self) -> (p: Place)
        ensures
            p@ == self@,
    {
        Place { map: self.map.clone(), x: self.x, y: self.y }
    }
}

/// Someone or something on the map.
#[derive(Debug, Clone)]
pub struct MapObject {
    pub local_id: u32,
    pub x: Option<i32>,
    pub y: Option<i32>,
    pub movement: Option<String>,
    pub graphics: Option<String>,
}

/// A neighbouring map at an edge.
#[derive(Debug, Clone)]
pub struct Connection {
    /// The edge; none for connections that are not walked across.
    pub direction: Option<Direction>,
    /// The constant of the neighbour.
    pub map: String,
}

/// A tile at an edge of the map and the neighbour's tile beyond it.
#[derive(Debug, Clone, Copy)]
pub struct Crossing {
    pub direction: Direction,
    pub from: Spot,
    pub to: Spot,
}

/// A step the map's terrain allows from a tile while nothing stands where it
/// ends.
#[derive(Debug, Clone, Copy)]
pub struct Passage {
    pub from: Spot,
    pub dir: Direction,
    pub to: Spot,
}

/// One map.
#[derive(Debug, Clone)]
pub struct MapData {
    /// The map's constant.
    pub id: String,
    pub name: String,
    pub width: i32,
    pub height: i32,
    /// The tiles, row by row.
    pub rows: Vec<Vec<Tile>>,
    pub warps: Vec<Warp>,
    pub objects: Vec<MapObject>,
    pub connections: Vec<Connection>,
    pub crossings: Vec<Crossing>,
    pub passages: Vec<Passage>,
    /// The object that heals the party, where there is one.
    pub healer: Option<u32>,
}

#[derive(Debug, Clone)]
pub struct World {
    pub maps: Vec<MapData>,
}

impl Direction {
    /// The direction's number in their order.
    pub open spec fn nth(i: int) -> Direction {
        if i == 0 {
            Direction::Up
        } else if i == 1 {
            Direction::Down
        } else if i == 2 {
            Direction::Left
        } else {
            Direction::Right
        }
    }

    pub fn number(i: usize) -> (d: Direction)
        ensures
            d == Direction::nth(i as int),
    {
        if i == 0 {
            Direction::Up
        } else if i == 1 {
            Direction::Down
        } else if i == 2 {
            Direction::Left
        } else {
            Direction::Right
        }
    }

    /// One tile along the direction.
    pub open spec fn dx(self) -> int {
        match self {
            Direction::Left => -1,
            Direction::Right => 1,
            _ => 0,
        }
    }

    pub open spec fn dy(self) -> int {
        match self {
            Direction::Up => -1,
            Direction::Down => 1,
            _ => 0,
        }
    }

    pub fn delta(self) -> (d: (i32, i32))
        ensures
            d.0 == self.dx(),
            d.1 == self.dy(),
    {
        match self {
            Direction::Up => (0, -1),
            Direction::Down => (0, 1),
            Direction::Left => (-1, 0),
            Direction::Right => (1, 0),
        }
    }

    pub open spec fn called(self) -> Seq<char> {
        match self {
            Direction::Up => "Up"@,
            Direction::Down => "Down"@,
            Direction::Left => "Left"@,
            Direction::Right => "Right"@,
        }
    }

    pub fn name(self) -> (s: &'static str)
        ensures
            s@ == self.called(),
    {
        match self {
            Direction::Up => "Up",
            Direction::Down => "Down",
            Direction::Left => "Left",
            Direction::Right => "Right",
        }
    }
}

pub open spec fn button_of(dir: Direction) -> Button {
    match dir {
        Direction::Up => Button::Up,
        Direction::Down => Button::Down,
        Direction::Left => Button::Left,
        Direction::Right => Button::Right,
    }
}

pub fn direction_button(dir: Direction) -> (b: Button)
    ensures
        b == button_of(dir),
{
    match dir {
        Direction::Up => Button::Up,
        Direction::Down => Button::Down,
        Direction::Left => Button::Left,
        Direction::Right => Button::Right,
    }
}

impl Tile {
    /// The direction that warps from this tile.
    pub open spec fn pushes(self) -> Option<Direction> {
        match self.behavior {
            Behavior::Arrow(d) => Some(d),
            Behavior::Stair(d) => Some(d),
            _ => None,
        }
    }

    pub fn push(self) -> (r: Option<Direction>)
        ensures
            r == self.pushes(),
    {
        match self.behavior {
            Behavior::Arrow(d) => Some(d),
            Behavior::Stair(d) => Some(d),
            _ => None,
        }
    }

    /// Entered from the tile below.
    pub open spec fn is_door(self) -> bool {
        self.behavior is Door || self.collision != 0
    }

    pub fn door(self) -> (r: bool)
        ensures
            r == self.is_door(),
    {
        matches!(self.behavior, Behavior::Door) || self.collision != 0
    }
}

impl MapData {
    /// The tile at a position, on the map.
    pub open spec fn tile_at(self, x: int, y: int) -> Option<Tile> {
        if 0 <= y < self.rows@.len() && 0 <= x < self.rows@[y]@.len() {
            Some(self.rows@[y]@[x])
        } else {
            None
        }
    }

    pub fn tile(&self, x: i32, y: i32) -> (t: Option<Tile>)
        ensures
            t == self.tile_at(x as int, y as int),
    {
        if x < 0 || y < 0 {
            return None;
        }
        let row: u64 = y as u64;
        let column: u64 = x as u64;
        if row >= self.rows.len() as u64 {
            return None;
        }
        let tiles = &self.rows[row as usize];
        if column >= tiles.len() as u64 {
            return None;
        }
        Some(tiles[column as usize])
    }
}

impl World {
    pub open spec fn map_at(self, name: Seq<char>, i: int) -> bool {
        &&& 0 <= i < self.maps@.len()
        &&& self.maps@[i].name@ == name
        &&& forall|j: int| 0 <= j < i ==> (#[trigger] self.maps@[j]).name@ != name
    }

    /// The map of a name.
    pub open spec fn map_of(self, name: Seq<char>) -> Option<MapData> {
        if exists|i: int| self.map_at(name, i) {
            Some(self.maps@[choose|i: int| self.map_at(name, i)])
        } else {
            None
        }
    }

    pub open spec fn id_at(self, id: Seq<char>, i: int) -> bool {
        &&& 0 <= i < self.maps@.len()
        &&& self.maps@[i].id@ == id
        &&& forall|j: int| 0 <= j < i ==> (#[trigger] self.maps@[j]).id@ != id
    }

    /// The name of the map with a constant.
    pub open spec fn named(self, id: Seq<char>) -> Option<Seq<char>> {
        if exists|i: int| self.id_at(id, i) {
            Some(self.maps@[choose|i: int| self.id_at(id, i)].name@)
        } else {
            None
        }
    }

    pub fn map(&self, name: &str) -> (r: Option<&MapData>)
        ensures
            match r {
                Some(m) => self.map_of(name@) == Some(*m) && m.name@ == name@,
                None => self.map_of(name@) is None,
            },
    {
        let mut i: usize = 0;
        while i < self.maps.len()
            invariant
                i <= self.maps@.len(),
                forall|j: int| 0 <= j < i ==> (#[trigger] self.maps@[j]).name@ != name@,
            decreases self.maps@.len() - i,
        {
            if same(self.maps[i].name.as_str(), name) {
                proof {
                    assert(self.map_at(name@, i as int));
                    let c = choose|c: int| self.map_at(name@, c);
                    assert(c == i) by {
                        assert(self.maps@[c].name@ == name@);
                        assert(self.maps@[i as int].name@ == name@);
                    }
                }
                return Some(&self.maps[i]);
            }
            i += 1;
        }
        assert forall|c: int| !self.map_at(name@, c) by {
            if self.map_at(name@, c) {
                assert(self.maps@[c].name@ == name@);
            }
        }
        None
    }

    pub fn name_of(&self, id: &str) -> (r: Option<&str>)
        ensures
            match r {
                Some(s) => self.named(id@) == Some(s@) && self.map_of(s@) is Some,
                None => self.named(id@) is None,
            },
    {
        let mut i: usize = 0;
        while i < self.maps.len()
            invariant
                i <= self.maps@.len(),
                forall|j: int| 0 <= j < i ==> (#[trigger] self.maps@[j]).id@ != id@,
            decreases self.maps@.len() - i,
        {
            if same(self.maps[i].id.as_str(), id) {
                proof {
                    assert(self.id_at(id@, i as int));
                    let c = choose|c: int| self.id_at(id@, c);
                    assert(c == i) by {
                        assert(self.maps@[c].id@ == id@);
                        assert(self.maps@[i as int].id@ == id@);
                    }
                    self.a_map_is_known_by_its_name(i as int);
                }
                return Some(self.maps[i].name.as_str());
            }
            i += 1;
        }
        assert forall|c: int| !self.id_at(id@, c) by {
            if self.id_at(id@, c) {
                assert(self.maps@[c].id@ == id@);
            }
        }
        None
    }

    proof fn a_map_is_known_by_its_name(self, i: int)
        requires
            0 <= i < self.maps@.len(),
        ensures
            self.map_of(self.maps@[i].name@) is Some,
        decreases i,
    {
        let name = self.maps@[i].name@;
        if self.map_at(name, i) {
        } else {
            let j = choose|j: int| 0 <= j < i && (#[trigger] self.maps@[j]).name@ == name;
            self.a_map_is_known_by_its_name(j);
        }
    }
}

} // verus!
