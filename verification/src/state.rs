//! What is known of the game, and where each fact comes from.

use vstd::prelude::*;

use crate::event::{items_of, Pocket, Status};
use crate::observe::PlayerPose;
use crate::text::same;

verus! {

#[derive(Debug, Clone, Copy, PartialEq, Eq, Structural)]
pub enum KnowledgeSource {
    Unknown,
    /// Read on screen.
    Observed,
    /// Followed from events since it was last read.
    Followed,
    /// Follows from game data.
    Derived,
}

/// Nothing known.
pub open spec fn not_known<T>() -> Knowledge<T> {
    Knowledge { value: None, source: KnowledgeSource::Unknown, frame: None }
}

/// A fact: its value, where it comes from, and the frame it was learned on.
#[derive(Debug, Clone, PartialEq, Eq)]
pub struct Knowledge<T> {
    pub value: Option<T>,
    pub source: KnowledgeSource,
    pub frame: Option<u64>,
}

impl<T> Knowledge<T> {
    pub fn unknown() -> (k: Knowledge<T>)
        ensures
            k == (Knowledge::<T> { value: None, source: KnowledgeSource::Unknown, frame: None }),
    {
        Knowledge { value: None, source: KnowledgeSource::Unknown, frame: None }
    }

    pub fn observed(value: T, frame: u64) -> (k: Knowledge<T>)
        ensures
            k == (Knowledge {
                value: Some(value),
                source: KnowledgeSource::Observed,
                frame: Some(frame),
            }),
    {
        Knowledge { value: Some(value), source: KnowledgeSource::Observed, frame: Some(frame) }
    }

    pub fn followed(value: T, frame: Option<u64>) -> (k: Knowledge<T>)
        ensures
            k == (Knowledge { value: Some(value), source: KnowledgeSource::Followed, frame }),
    {
        Knowledge { value: Some(value), source: KnowledgeSource::Followed, frame }
    }

    pub fn derived(value: T, frame: u64) -> (k: Knowledge<T>)
        ensures
            k == (Knowledge {
                value: Some(value),
                source: KnowledgeSource::Derived,
                frame: Some(frame),
            }),
    {
        Knowledge { value: Some(value), source: KnowledgeSource::Derived, frame: Some(frame) }
    }

    /// Followed, not read.
    pub fn is_stale(&self) -> (r: bool)
        ensures
            r == (self.source == KnowledgeSource::Followed),
    {
        self.source == KnowledgeSource::Followed
    }
}

impl<T> Default for Knowledge<T> {
    fn default() -> (k: Knowledge<T>)
        ensures
            k == (Knowledge::<T> { value: None, source: KnowledgeSource::Unknown, frame: None }),
    {
        Knowledge::unknown()
    }
}

#[derive(Debug, Clone, PartialEq, Eq)]
pub struct MoveSlot {
    pub mv: Knowledge<String>,
    /// PP and maximum PP.
    pub pp: Knowledge<(u8, u8)>,
}

/// Stats and ability as the summary prints them.
#[derive(Debug, Clone, PartialEq, Eq)]
pub struct Details {
    pub attack: Knowledge<u16>,
    pub defense: Knowledge<u16>,
    pub speed: Knowledge<u16>,
    pub sp_attack: Knowledge<u16>,
    pub sp_defense: Knowledge<u16>,
    pub ability: Knowledge<String>,
}

impl Default for Details {
    fn default() -> (d: Details)
        ensures
            d.attack == not_known::<u16>(),
            d.defense == not_known::<u16>(),
            d.speed == not_known::<u16>(),
            d.sp_attack == not_known::<u16>(),
            d.sp_defense == not_known::<u16>(),
            d.ability == not_known::<String>(),
    {
        Details {
            attack: Knowledge::unknown(),
            defense: Knowledge::unknown(),
            speed: Knowledge::unknown(),
            sp_attack: Knowledge::unknown(),
            sp_defense: Knowledge::unknown(),
            ability: Knowledge::unknown(),
        }
    }
}

/// A party member as far as it is known.
#[derive(Debug, Clone, PartialEq, Eq)]
pub struct PartyMon {
    pub species: Knowledge<String>,
    pub level: Knowledge<u8>,
    /// Current and maximum HP.
    pub hp: Knowledge<(u16, u16)>,
    pub status: Knowledge<Status>,
    /// The four move slots.
    pub moves: [Option<MoveSlot>; 4],
    pub details: Details,
}

impl Default for PartyMon {
    fn default() -> (m: PartyMon)
        ensures
            m.species == not_known::<String>(),
            m.level == not_known::<u8>(),
            m.hp == not_known::<(u16, u16)>(),
            m.status == not_known::<Status>(),
            m.moves@ == seq![None::<MoveSlot>, None, None, None],
            m.details.attack == not_known::<u16>(),
            m.details.defense == not_known::<u16>(),
            m.details.speed == not_known::<u16>(),
            m.details.sp_attack == not_known::<u16>(),
            m.details.sp_defense == not_known::<u16>(),
            m.details.ability == not_known::<String>(),
    {
        PartyMon {
            species: Knowledge::unknown(),
            level: Knowledge::unknown(),
            hp: Knowledge::unknown(),
            status: Knowledge::unknown(),
            moves: [None, None, None, None],
            details: Details::default(),
        }
    }
}

/// Facts by name.
pub type Facts<T> = Vec<(String, Knowledge<T>)>;

/// Row `i` is the first fact of this name.
pub open spec fn first_fact<T>(facts: Seq<(String, Knowledge<T>)>, name: Seq<char>, i: int) -> bool {
    &&& 0 <= i < facts.len()
    &&& facts[i].0@ == name
    &&& forall|j: int| 0 <= j < i ==> (#[trigger] facts[j]).0@ != name
}

/// What is known under a name; the first entry counts.
pub open spec fn fact_of<T>(facts: Seq<(String, Knowledge<T>)>, name: Seq<char>) -> Knowledge<T> {
    if exists|i: int| first_fact(facts, name, i) {
        facts[choose|i: int| first_fact(facts, name, i)].1
    } else {
        Knowledge { value: None, source: KnowledgeSource::Unknown, frame: None }
    }
}

/// The place of the first fact of this name.
pub fn find_fact<T>(facts: &Vec<(String, Knowledge<T>)>, name: &str) -> (r: Option<usize>)
    ensures
        match r {
            Some(i) => first_fact(facts@, name@, i as int) && fact_of(facts@, name@)
                == facts@[i as int].1,
            None => fact_of(facts@, name@) == (Knowledge::<T> {
                value: None,
                source: KnowledgeSource::Unknown,
                frame: None,
            }) && forall|i: int| 0 <= i < facts@.len() ==> (#[trigger] facts@[i]).0@ != name@,
        },
{
    let mut i: usize = 0;
    while i < facts.len()
        invariant
            i <= facts@.len(),
            forall|j: int| 0 <= j < i ==> (#[trigger] facts@[j]).0@ != name@,
        decreases facts@.len() - i,
    {
        if same(&facts[i].0, name) {
            proof {
                assert(first_fact(facts@, name@, i as int));
                let c = choose|k: int| first_fact(facts@, name@, k);
                assert(c == i) by {
                    assert(facts@[c].0@ == name@);
                    assert(facts@[i as int].0@ == name@);
                }
            }
            return Some(i);
        }
        i += 1;
    }
    None
}

/// The value known under a name.
pub fn fact_value<T: Copy>(facts: &Vec<(String, Knowledge<T>)>, name: &str) -> (r: Option<T>)
    ensures
        r == fact_of(facts@, name@).value,
{
    match find_fact(facts, name) {
        Some(i) => facts[i].1.value,
        None => None,
    }
}

/// Where what is known under a name comes from.
pub fn fact_source<T>(facts: &Vec<(String, Knowledge<T>)>, name: &str) -> (r: KnowledgeSource)
    ensures
        r == fact_of(facts@, name@).source,
{
    match find_fact(facts, name) {
        Some(i) => facts[i].1.source,
        None => KnowledgeSource::Unknown,
    }
}

/// Flags, variables and visited maps.
#[derive(Debug, Clone, PartialEq, Eq)]
pub struct WorldBelief {
    pub flags: Vec<(String, Knowledge<bool>)>,
    pub vars: Vec<(String, Knowledge<u16>)>,
    pub visited: Vec<(String, Knowledge<bool>)>,
    /// Intents found infeasible in this session.
    pub infeasible: Vec<String>,
}

/// How many boxes the PC has.
pub const PC_BOXES: usize = 14;

/// The Pokédex's totals; the seen one shows only once it is enabled.
#[derive(Debug, Clone, Copy, PartialEq, Eq, Structural)]
pub struct PokedexCounts {
    pub seen: Option<u16>,
    pub caught: u16,
}

/// What goes with a save file.
#[derive(Debug, Clone, PartialEq, Eq)]
pub struct SavedKnowledge {
    pub party: Knowledge<Vec<PartyMon>>,
    pub money: Knowledge<u32>,
    /// What each pocket of the bag holds.
    pub pockets: Vec<(Pocket, Knowledge<Vec<(String, u16)>>)>,
    pub world: WorldBelief,
    /// Species known to be caught or not.
    pub caught: Vec<(String, Knowledge<bool>)>,
    pub counts: Knowledge<PokedexCounts>,
    /// The species in each box of the PC.
    pub boxes: Vec<Knowledge<Vec<String>>>,
}

impl Default for SavedKnowledge {
    fn default() -> (k: SavedKnowledge)
        ensures
            k.party.value is None,
            k.party.source == KnowledgeSource::Unknown,
            k.party.frame is None,
            k.money == (Knowledge::<u32> {
                value: None,
                source: KnowledgeSource::Unknown,
                frame: None,
            }),
            k.pockets@.len() == 0,
            k.world.flags@.len() == 0,
            k.world.vars@.len() == 0,
            k.world.visited@.len() == 0,
            k.world.infeasible@.len() == 0,
            k.caught@.len() == 0,
            k.counts == (Knowledge::<PokedexCounts> {
                value: None,
                source: KnowledgeSource::Unknown,
                frame: None,
            }),
            k.boxes@.len() == PC_BOXES,
            forall|i: int|
                0 <= i < PC_BOXES ==> (#[trigger] k.boxes@[i]) == (Knowledge::<Vec<String>> {
                    value: None,
                    source: KnowledgeSource::Unknown,
                    frame: None,
                }),
    {
        let mut boxes: Vec<Knowledge<Vec<String>>> = Vec::new();
        let mut i: usize = 0;
        while i < PC_BOXES
            invariant
                i <= PC_BOXES,
                boxes@.len() == i,
                forall|j: int|
                    0 <= j < i ==> (#[trigger] boxes@[j]) == (Knowledge::<Vec<String>> {
                        value: None,
                        source: KnowledgeSource::Unknown,
                        frame: None,
                    }),
            decreases PC_BOXES - i,
        {
            boxes.push(Knowledge::unknown());
            i += 1;
        }
        SavedKnowledge {
            party: Knowledge::unknown(),
            money: Knowledge::unknown(),
            pockets: Vec::new(),
            world: WorldBelief {
                flags: Vec::new(),
                vars: Vec::new(),
                visited: Vec::new(),
                infeasible: Vec::new(),
            },
            caught: Vec::new(),
            counts: Knowledge::unknown(),
            boxes,
        }
    }
}

/// Row `i` is the first entry of this pocket.
pub open spec fn first_pocket(
    pockets: Seq<(Pocket, Knowledge<Vec<(String, u16)>>)>,
    pocket: Pocket,
    i: int,
) -> bool {
    &&& 0 <= i < pockets.len()
    &&& pockets[i].0 == pocket
    &&& forall|j: int| 0 <= j < i ==> (#[trigger] pockets[j]).0 != pocket
}

impl SavedKnowledge {
    /// What a pocket is known to hold.
    pub open spec fn holds(self, pocket: Pocket) -> Option<Seq<(Seq<char>, u16)>> {
        if exists|i: int| first_pocket(self.pockets@, pocket, i) {
            let k = self.pockets@[choose|i: int| first_pocket(self.pockets@, pocket, i)].1;
            match k.value {
                Some(items) => Some(items_of(items@)),
                None => None,
            }
        } else {
            None
        }
    }

    pub fn pocket(&self, pocket: Pocket) -> (r: Option<&Vec<(String, u16)>>)
        ensures
            match r {
                Some(items) => self.holds(pocket) == Some(items_of(items@)),
                None => self.holds(pocket) is None,
            },
    {
        let mut i: usize = 0;
        while i < self.pockets.len()
            invariant
                i <= self.pockets@.len(),
                forall|j: int| 0 <= j < i ==> (#[trigger] self.pockets@[j]).0 != pocket,
            decreases self.pockets@.len() - i,
        {
            if self.pockets[i].0 == pocket {
                proof {
                    assert(first_pocket(self.pockets@, pocket, i as int));
                    let c = choose|k: int| first_pocket(self.pockets@, pocket, k);
                    assert(c == i) by {
                        assert(self.pockets@[c].0 == pocket);
                        assert(self.pockets@[i as int].0 == pocket);
                    }
                }
                return self.pockets[i].1.value.as_ref();
            }
            i += 1;
        }
        None
    }
}

/// Everything known of the running game.
#[derive(Debug, Clone, PartialEq, Eq)]
pub struct GameState {
    pub pose: Knowledge<PlayerPose>,
    pub badges: Knowledge<Vec<String>>,
    pub saved: SavedKnowledge,
}

impl Default for GameState {
    fn default() -> (s: GameState)
        ensures
            s.pose.value is None,
            s.badges.value is None,
            s.saved.party.value is None,
            s.saved.money.value is None,
            s.saved.pockets@.len() == 0,
            s.saved.world.flags@.len() == 0,
            s.saved.world.vars@.len() == 0,
            s.saved.world.visited@.len() == 0,
            s.saved.caught@.len() == 0,
    {
        GameState {
            pose: Knowledge::unknown(),
            badges: Knowledge::unknown(),
            saved: SavedKnowledge::default(),
        }
    }
}

} // verus!
