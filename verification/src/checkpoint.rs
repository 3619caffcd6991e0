//! The knowledge that goes with a save file (`state.json`, beside
//! `progress.json`), written after every in-game save and restored whenever
//! that save is loaded. It carries the identity of the `progress.json` it was
//! written with, so a `state.json` left over from another save is never
//! trusted.

use vstd::prelude::*;

use crate::event::Status;
use crate::gamedata::GameData;
use crate::motion::walker::pose_of;
use crate::observe::{lines_of, PlayerPose, PoseV};
use crate::party::{
    copy_lines, hp_plausible_for, less, max_pp, max_pp_of, plausible_hp_for, same_lines, spent,
    Member, Party,
};
use crate::paths::{renamed, with_file_name};
use crate::progress::Progress;
use crate::state::{
    not_known, Knowledge, KnowledgeSource, MoveSlot, PartyMon, PokedexCounts, SavedKnowledge,
    PC_BOXES,
};
use crate::text::cat;

verus! {

/// Where the knowledge of a progress file is kept: `state.json` beside it.
pub fn path_for(progress: &str) -> (s: String)
    ensures
        s@ == renamed(progress@, "state.json"@),
{
    with_file_name(progress, "state.json")
}

/// What ties a `state.json` to its `progress.json`: the milestones done and
/// where the game was saved, both written by the same checkpoint.
#[derive(Debug, Clone, PartialEq, Eq)]
pub struct Identity {
    pub milestones: Vec<String>,
    pub saved_at: Option<PlayerPose>,
}

#[verifier::ext_equal]
pub struct IdentityV {
    pub milestones: Seq<Seq<char>>,
    pub saved_at: Option<PoseV>,
}

impl View for Identity {
    type V = IdentityV;

    open spec fn view(&self) -> IdentityV {
        IdentityV { milestones: lines_of(self.milestones@), saved_at: pose_of(self.saved_at) }
    }
}

pub open spec fn identity_of(progress: Progress) -> IdentityV {
    IdentityV {
        milestones: lines_of(progress.milestones@),
        saved_at: pose_of(progress.saved_at),
    }
}

impl Identity {
    pub fn of(progress: &Progress) -> (id: Identity)
        ensures
            id@ == identity_of(*progress),
    {
        Identity {
            milestones: copy_lines(&progress.milestones),
            saved_at: match &progress.saved_at {
                Some(p) => Some(p.copy()),
                None => None,
            },
        }
    }

    pub fn same(&self, other: &Identity) -> (r: bool)
        ensures
            r == (self@ == other@),
    {
        let places = match (&self.saved_at, &other.saved_at) {
            (Some(a), Some(b)) => a.same(b),
            (None, None) => true,
            _ => false,
        };
        places && same_lines(&self.milestones, &other.milestones)
    }
}

/// The contents of `state.json`.
#[derive(Debug, Clone, PartialEq, Eq)]
pub struct Checkpoint {
    /// Absent in files written before identities existed.
    pub identity: Option<Identity>,
    pub knowledge: SavedKnowledge,
}

pub open spec fn species_read(mon: PartyMon) -> Option<Seq<char>> {
    match mon.species.value {
        Some(s) => Some(s@),
        None => None,
    }
}

/// The HP read of a member is impossible at its level.
pub open spec fn hp_impossible(mon: PartyMon) -> bool {
    mon.level.value is Some && mon.hp.value is Some && !hp_plausible_for(
        mon.hp.value->0,
        mon.level.value->0,
        species_read(mon),
    )
}

/// A member without a reading that cannot be.
pub open spec fn repaired(mon: PartyMon) -> PartyMon {
    if hp_impossible(mon) {
        PartyMon {
            hp: Knowledge { value: None, source: KnowledgeSource::Unknown, frame: None },
            ..mon
        }
    } else {
        mon
    }
}

fn repair_mon(mon: &mut PartyMon)
    ensures
        *final(mon) == repaired(*old(mon)),
{
    let bad = match (mon.level.value, mon.hp.value) {
        (Some(level), Some(hp)) => !plausible_hp_for(
            hp,
            level,
            match &mon.species.value {
                Some(s) => Some(s.as_str()),
                None => None,
            },
        ),
        _ => false,
    };
    if bad {
        mon.hp = Knowledge::unknown();
    }
}

/// A checkpoint as it is after its impossible HP was forgotten: all else stays.
pub open spec fn repairs(before: Checkpoint, after: Checkpoint) -> bool {
    let old_party = before.knowledge.party;
    let new_party = after.knowledge.party;
    &&& after.identity == before.identity
    &&& after.knowledge == (SavedKnowledge { party: new_party, ..before.knowledge })
    &&& match old_party.value {
        None => new_party == old_party,
        Some(mons) => {
            &&& new_party.source == old_party.source
            &&& new_party.frame == old_party.frame
            &&& new_party.value is Some
            &&& new_party.value->0@ == mons@.map_values(|m: PartyMon| repaired(m))
        },
    }
}

/// Forgets HP that was misread before it was stored (`22` read as `2`): a
/// checkpoint must not preserve an impossible value as an observed fact on
/// every restart.
pub fn repair(checkpoint: &mut Checkpoint)
    ensures
        repairs(*old(checkpoint), *final(checkpoint)),
{
    let ghost before = checkpoint.knowledge;
    match &mut checkpoint.knowledge.party.value {
        Some(mons) => {
            let ghost start = mons@;
            let mut i: usize = 0;
            let n: usize = mons.len();
            while i < n
                invariant
                    i <= n,
                    n == mons@.len(),
                    n == start.len(),
                    forall|j: int| 0 <= j < i ==> #[trigger] mons@[j] == repaired(start[j]),
                    forall|j: int| i <= j < n ==> #[trigger] mons@[j] == start[j],
                decreases n - i,
            {
                let mon = &mut mons[i];
                repair_mon(mon);
                i += 1;
            }
            assert(mons@ =~= start.map_values(|m: PartyMon| repaired(m)));
        },
        None => {},
    }
}

/// What is written to `state.json` with a save.
pub fn store(identity: Identity, knowledge: SavedKnowledge) -> (c: Checkpoint)
    ensures
        c == (Checkpoint { identity: Some(identity), knowledge }),
{
    Checkpoint { identity: Some(identity), knowledge }
}

/// What is loaded from the contents of `state.json`, where there is one: as it
/// was written, but for HP that cannot be.
pub fn load(contents: Option<Checkpoint>) -> (r: Option<Checkpoint>)
    ensures
        match contents {
            Some(c) => r is Some && repairs(c, r->0),
            None => r is None,
        },
{
    match contents {
        Some(c) => {
            let mut c = c;
            repair(&mut c);
            Some(c)
        },
        None => None,
    }
}

/// A fact kept from before, not read since.
pub open spec fn kept<T>(value: T) -> Knowledge<T> {
    Knowledge { value: Some(value), source: KnowledgeSource::Followed, frame: None }
}

/// A text kept from before.
pub open spec fn keeps_text(k: Knowledge<String>, text: Seq<char>) -> bool {
    k.value is Some && k.value->0@ == text && k.source == KnowledgeSource::Followed && k.frame
        is None
}

/// A move slot as a member's moves tell it.
pub open spec fn keeps_move(slot: Option<MoveSlot>, data: GameData, m: Member, i: int) -> bool {
    if i < m.moves@.len() {
        &&& slot is Some
        &&& keeps_text(slot->0.mv, m.moves@[i]@)
        &&& slot->0.pp == kept(
            (
                less(max_pp(data, m.moves@[i]@), spent(m.pp_used@, m.moves@[i]@)),
                max_pp(data, m.moves@[i]@),
            ),
        )
    } else {
        slot is None
    }
}

/// What is kept of a member: species, level, HP where it can be, and moves.
pub open spec fn keeps_member(mon: PartyMon, data: GameData, m: Member) -> bool {
    &&& keeps_text(mon.species, m.species@)
    &&& mon.level == kept(m.level)
    &&& mon.hp == (if m.hp is Some && hp_plausible_for(m.hp->0, m.level, Some(m.species@)) {
        kept(m.hp->0)
    } else {
        not_known()
    })
    &&& mon.status == not_known::<Status>()
    &&& forall|i: int| 0 <= i < 4 ==> keeps_move(#[trigger] mon.moves@[i], data, m, i)
    &&& mon.details.attack == not_known::<u16>()
    &&& mon.details.defense == not_known::<u16>()
    &&& mon.details.speed == not_known::<u16>()
    &&& mon.details.sp_attack == not_known::<u16>()
    &&& mon.details.sp_defense == not_known::<u16>()
    &&& mon.details.ability == not_known::<String>()
}

/// Nothing else than the party is known.
pub open spec fn knows_only_the_party(k: SavedKnowledge) -> bool {
    &&& k.money == not_known::<u32>()
    &&& k.pockets@.len() == 0
    &&& k.world.flags@.len() == 0
    &&& k.world.vars@.len() == 0
    &&& k.world.visited@.len() == 0
    &&& k.world.infeasible@.len() == 0
    &&& k.caught@.len() == 0
    &&& k.counts == not_known::<PokedexCounts>()
    &&& k.boxes@.len() == PC_BOXES
    &&& forall|i: int| 0 <= i < PC_BOXES ==> #[trigger] k.boxes@[i] == not_known::<Vec<String>>()
}

/// Knowledge from a party alone.
pub open spec fn keeps_party(k: SavedKnowledge, data: GameData, party: Party) -> bool {
    &&& knows_only_the_party(k)
    &&& if party.members@.len() == 0 {
        k.party == not_known::<Vec<PartyMon>>()
    } else {
        &&& k.party.value is Some
        &&& k.party.source == KnowledgeSource::Followed
        &&& k.party.frame is None
        &&& k.party.value->0@.len() == party.members@.len()
        &&& forall|i: int|
            0 <= i < party.members@.len() ==> keeps_member(
                #[trigger] k.party.value->0@[i],
                data,
                party.members@[i],
            )
    }
}

fn keep_move(data: &GameData, m: &Member, i: usize) -> (slot: Option<MoveSlot>)
    ensures
        keeps_move(slot, *data, *m, i as int),
{
    if i >= m.moves.len() {
        return None;
    }
    let mv = &m.moves[i];
    let max = max_pp_of(data, mv.as_str());
    let left = m.pp_left(data, mv.as_str());
    Some(
        MoveSlot {
            mv: Knowledge::followed(mv.clone(), None),
            pp: Knowledge::followed((left, max), None),
        },
    )
}

fn keep_member(data: &GameData, m: &Member) -> (mon: PartyMon)
    ensures
        keeps_member(mon, *data, *m),
{
    let mut mon = PartyMon::default();
    mon.species = Knowledge::followed(m.species.clone(), None);
    mon.level = Knowledge::followed(m.level, None);
    mon.hp = match m.hp {
        Some(hp) => if plausible_hp_for(hp, m.level, Some(m.species.as_str())) {
            Knowledge::followed(hp, None)
        } else {
            Knowledge::unknown()
        },
        None => Knowledge::unknown(),
    };
    mon.moves =
        [
            keep_move(data, m, 0),
            keep_move(data, m, 1),
            keep_move(data, m, 2),
            keep_move(data, m, 3),
        ];
    mon
}

/// Knowledge from an older `progress.json` that only had a party: kept, but
/// as followed (stale) knowledge. No party there means the party is unknown.
pub fn legacy_knowledge(data: &GameData, party: &Party) -> (k: SavedKnowledge)
    ensures
        keeps_party(k, *data, *party),
{
    let mut k = SavedKnowledge::default();
    if party.members.len() == 0 {
        return k;
    }
    let mut mons: Vec<PartyMon> = Vec::new();
    let mut i: usize = 0;
    while i < party.members.len()
        invariant
            i <= party.members@.len(),
            mons@.len() == i,
            forall|j: int|
                0 <= j < i ==> keeps_member(#[trigger] mons@[j], *data, party.members@[j]),
        decreases party.members@.len() - i,
    {
        mons.push(keep_member(data, &party.members[i]));
        i += 1;
    }
    k.party = Knowledge::followed(mons, None);
    k
}

/// The knowledge restored for a loaded save.
#[derive(Debug, Clone, PartialEq, Eq)]
pub struct Restored {
    pub knowledge: SavedKnowledge,
    /// Where it came from, for the log.
    pub source: String,
    /// Why `state.json` was not used, when it exists but can't be trusted.
    pub warning: Option<String>,
}

/// What to make of the knowledge beside a save.
pub enum Trust {
    /// It was written with this progress.
    Trusted,
    /// It is not used, and why, where it is there.
    Ignored(Option<Seq<char>>),
}

/// What was found beside a save is trusted only where it was written with this
/// progress.
pub open spec fn trust(
    path: Seq<char>,
    loaded: Result<Option<Checkpoint>, String>,
    progress: Progress,
) -> Trust {
    match loaded {
        Err(e) => Trust::Ignored(Some(e@ + ": ignored"@)),
        Ok(None) => Trust::Ignored(None),
        Ok(Some(c)) => match c.identity {
            Some(id) => if id@ == identity_of(progress) {
                Trust::Trusted
            } else {
                Trust::Ignored(
                    Some(
                        path
                            + " was written for another save (its milestones or save position differ from progress.json): ignored"@,
                    ),
                )
            },
            None => Trust::Ignored(
                Some(
                    path
                        + " has no identity (written before checkpoints were tied to progress.json): ignored"@,
                ),
            ),
        },
    }
}

fn legacy(data: &GameData, progress: &Progress, warning: Option<String>) -> (r: Restored)
    ensures
        keeps_party(r.knowledge, *data, progress.party),
        r.source@ == (if progress.party.members@.len() == 0 {
            "nothing: no state.json for this save and no legacy party (party unknown)"@
        } else {
            "the legacy party in progress.json (migrated as Tracked)"@
        }),
        r.warning == warning,
{
    Restored {
        knowledge: legacy_knowledge(data, &progress.party),
        source: if progress.party.members.len() == 0 {
            "nothing: no state.json for this save and no legacy party (party unknown)".to_owned()
        } else {
            "the legacy party in progress.json (migrated as Tracked)".to_owned()
        },
        warning,
    }
}

/// What is restored: the knowledge that was stored for this very save, and else
/// the party alone.
pub open spec fn restores(
    path: Seq<char>,
    loaded: Result<Option<Checkpoint>, String>,
    progress: Progress,
    data: GameData,
    r: Restored,
) -> bool {
    match trust(path, loaded, progress) {
        Trust::Trusted => {
            &&& r.knowledge == (loaded->Ok_0)->0.knowledge
            &&& r.source@ == path
            &&& r.warning is None
        },
        Trust::Ignored(warning) => {
            &&& keeps_party(r.knowledge, data, progress.party)
            &&& r.source@ == (if progress.party.members@.len() == 0 {
                "nothing: no state.json for this save and no legacy party (party unknown)"@
            } else {
                "the legacy party in progress.json (migrated as Tracked)"@
            })
            &&& match r.warning {
                Some(w) => warning == Some(w@),
                None => warning is None,
            }
        },
    }
}

/// The knowledge for a loaded save: `state.json` when it was written with
/// this `progress.json`; otherwise taken over from the party in
/// `progress.json` (unknown when there is none). `loaded` is what was read from
/// `path`: nothing where there is no such file, and why where it can't be read.
pub fn restore(
    path: &str,
    loaded: Result<Option<Checkpoint>, String>,
    progress: &Progress,
    data: &GameData,
) -> (r: Restored)
    ensures
        restores(path@, loaded, *progress, *data, r),
{
    let checkpoint = match loaded {
        Ok(Some(c)) => c,
        Ok(None) => {
            return legacy(data, progress, None);
        },
        Err(e) => {
            return legacy(data, progress, Some(cat(e.as_str(), ": ignored")));
        },
    };
    let expected = Identity::of(progress);
    match &checkpoint.identity {
        Some(id) => {
            if id.same(&expected) {
                return Restored {
                    knowledge: checkpoint.knowledge,
                    source: path.to_owned(),
                    warning: None,
                };
            }
            legacy(
                data,
                progress,
                Some(
                    cat(
                        path,
                        " was written for another save (its milestones or save position differ from progress.json): ignored",
                    ),
                ),
            )
        },
        None => legacy(
            data,
            progress,
            Some(
                cat(
                    path,
                    " has no identity (written before checkpoints were tied to progress.json): ignored",
                ),
            ),
        ),
    }
}

/// Knowledge stored with a save's identity is trusted for exactly the progress
/// with the same milestones, saved at the same place.
pub proof fn only_the_same_save_is_trusted(
    path: Seq<char>,
    checkpoint: Checkpoint,
    progress: Progress,
)
    ensures
        trust(path, Ok(Some(checkpoint)), progress) is Trusted <==> (checkpoint.identity is Some
            && lines_of(checkpoint.identity->0.milestones@) == lines_of(progress.milestones@)
            && pose_of(checkpoint.identity->0.saved_at) == pose_of(progress.saved_at)),
{
}

/// Repairing twice changes nothing more, and no impossible HP is left.
pub proof fn repair_leaves_nothing_to_repair(mon: PartyMon)
    ensures
        !hp_impossible(repaired(mon)),
        repaired(repaired(mon)) == repaired(mon),
{
}

/// What was stored is what is loaded, where no HP of the party is impossible.
pub proof fn what_was_stored_is_loaded(
    identity: Identity,
    knowledge: SavedKnowledge,
    loaded: Checkpoint,
)
    requires
        repairs(Checkpoint { identity: Some(identity), knowledge }, loaded),
        knowledge.party.value matches Some(mons) ==> forall|i: int|
            0 <= i < mons@.len() ==> !hp_impossible(#[trigger] mons@[i]),
    ensures
        loaded.identity == Some(identity),
        loaded.knowledge == (SavedKnowledge { party: loaded.knowledge.party, ..knowledge }),
        loaded.knowledge.party.source == knowledge.party.source,
        loaded.knowledge.party.frame == knowledge.party.frame,
        match (knowledge.party.value, loaded.knowledge.party.value) {
            (Some(stored), Some(read)) => read@ == stored@,
            (None, None) => true,
            _ => false,
        },
{
    if let Some(mons) = knowledge.party.value {
        assert(loaded.knowledge.party.value->0@ =~= mons@);
    }
}

/// Knowledge that was stored with a save comes back when that save is
/// continued, and with no other.
pub proof fn a_saves_own_knowledge_is_restored(
    path: Seq<char>,
    saved: Progress,
    continued: Progress,
    stored: Checkpoint,
    loaded: Checkpoint,
)
    requires
        stored.identity is Some,
        stored.identity->0@ == identity_of(saved),
        repairs(stored, loaded),
    ensures
        trust(path, Ok(Some(loaded)), continued) is Trusted <==> identity_of(saved)
            == identity_of(continued),
{
}

} // verus!
