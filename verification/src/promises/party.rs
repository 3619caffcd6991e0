//! The party: what its moves have left, what can be true of its numbers, and what
//! a battle shows of it.

use vstd::prelude::*;

use crate::event::GameEventV;
use crate::gamedata::GameData;
use crate::observe::{lines_of, BattleMenu, BattleObservation};
use crate::party::{
    battle_news, displayed, evolutions_of, explained, first_match, hp_plausible_for, hp_shown,
    hud_news, known_slots, max_pp, member_seen, menu_news, moves_news, moves_read, name_matches,
    next_generation, seen, slot_names, slot_spent, spent, stat_range, Member, Party,
};
use crate::state::{MoveSlot, PartyMon};
use crate::text::{begins, cut_end, cut_start, ends, swapped};

verus! {

// ---- Numbers ----

/// What a move has left and what it has used make its PP; more was never used
/// than it has.
pub proof fn pp_left_and_used_add_up(m: Member, data: GameData, mv: Seq<char>)
    ensures
        ({
            let used = spent(m.pp_used@, mv);
            let most = max_pp(data, mv);
            &&& used <= most ==> m.left(data, mv) + used == most
            &&& used > most ==> m.left(data, mv) == 0
        }),
{
}

/// For wild battles a move counts where it does damage: all that it has left
/// where it has thirty PP or more, and else what is left above the reserve; the
/// moves add up.
pub proof fn pp_for_wild_battles_adds_up(m: Member, data: GameData, reserve: u8, n: nat)
    requires
        n < m.moves@.len(),
    ensures
        ({
            let mv = m.moves@[n as int]@;
            let left = m.left(data, mv) as int;
            let hits = data.move_of(mv) is Some && data.move_of(mv)->0.power > 0;
            let counts: int = if !hits {
                0
            } else if data.move_of(mv)->0.pp >= 30 {
                left
            } else if left > reserve {
                left - reserve
            } else {
                0
            };
            &&& m.wild_pp_sum(data, reserve, n + 1) == m.wild_pp_sum(data, reserve, n) + counts
            &&& m.wild_pp_sum(data, reserve, 0) == 0
        }),
{
}

/// Used PP is what is missing from the most; a move that was not read counts for
/// nothing.
pub proof fn missing_pp_is_used(slots: Seq<Option<MoveSlot>>, s: MoveSlot)
    ensures
        slot_spent(slots.push(None)) == slot_spent(slots),
        s.mv.value is Some && s.pp.value is Some && (s.pp.value->0).0 <= (s.pp.value->0).1 ==> ({
            let all = slot_spent(slots.push(Some(s)));
            &&& all.len() == slot_spent(slots).len() + 1
            &&& all.last().0 == s.mv.value->0@
            &&& all.last().1 + (s.pp.value->0).0 == (s.pp.value->0).1
            &&& all.drop_last() == slot_spent(slots)
        }),
        s.mv.value is None || s.pp.value is None ==> slot_spent(slots.push(Some(s))) == slot_spent(
            slots,
        ),
{
    assert(slots.push(None).drop_last() =~= slots);
    assert(slots.push(Some(s)).drop_last() =~= slots);
    let all = slot_spent(slots.push(Some(s)));
    if s.mv.value is Some && s.pp.value is Some {
        assert(all.drop_last() =~= slot_spent(slots));
    }
}

proof fn quotients_keep_order(a: int, b: int, d: int)
    by (nonlinear_arith)
    requires
        a <= b,
        d > 0,
    ensures
        a / d <= b / d,
{
}

/// A stat as the game computes it can be true: from any individual value up to
/// 31, any effort up to 252 and any nature.
pub proof fn a_true_stat_is_believed(base: u8, level: u8, individual: int, effort: int, nature: int)
    requires
        0 <= individual <= 31,
        0 <= effort <= 252,
        9 <= nature <= 11,
    ensures
        ({
            let stat = ((2 * base + individual + effort / 4) * level / 100 + 5) * nature / 10;
            stat_range(base, level).0 <= stat <= stat_range(base, level).1
        }),
{
    let l = level as int;
    let b = 2 * base as int;
    let low = b * l;
    let mid = (b + individual + effort / 4) * l;
    let high = (b + 31 + 63) * l;
    assert(low <= mid <= high) by (nonlinear_arith)
        requires
            low == b * l,
            mid == (b + individual + effort / 4) * l,
            high == (b + 31 + 63) * l,
            0 <= individual <= 31,
            0 <= effort <= 252,
            l >= 0,
    ;
    assert(low >= 0) by (nonlinear_arith)
        requires
            low == b * l,
            b >= 0,
            l >= 0,
    ;
    quotients_keep_order(low, mid, 100);
    quotients_keep_order(mid, high, 100);
    let x = low / 100 + 5;
    let y = mid / 100 + 5;
    let z = high / 100 + 5;
    assert(x * 9 <= y * nature <= z * 11) by (nonlinear_arith)
        requires
            0 <= x <= y <= z,
            9 <= nature <= 11,
    ;
    quotients_keep_order(x * 9, y * nature, 10);
    quotients_keep_order(y * nature, z * 11, 10);
}

/// Health as the game computes it can be true, from no damage to fainting; more
/// than the most cannot, nor a most that no Pokemon of the level could have.
pub proof fn true_health_is_believed(
    base: u8,
    level: u8,
    individual: int,
    effort: int,
    hp: u16,
    max: u16,
    species: Seq<char>,
)
    requires
        0 <= individual <= 31,
        0 <= effort <= 252,
    ensures
        max == (2 * base + individual + effort / 4) * level / 100 + level + 10 && hp <= max
            ==> hp_plausible_for((hp, max), level, Some(species)),
        hp > max ==> !hp_plausible_for((hp, max), level, Some(species)),
        max < level + 10 && species != "SPECIES_SHEDINJA"@ ==> !hp_plausible_for(
            (hp, max),
            level,
            Some(species),
        ),
        hp <= 1 ==> hp_plausible_for((hp, 1), level, Some("SPECIES_SHEDINJA"@)),
        max > 1 && max < level + 10 ==> !hp_plausible_for((hp, max), level, Some(species)),
{
    let x = (2 * base + individual + effort / 4) * level;
    assert(x >= 0) by (nonlinear_arith)
        requires
            x == (2 * base + individual + effort / 4) * level,
            individual >= 0,
            effort >= 0,
    ;
}

// ---- Names ----

/// A species is shown by its key without the prefix, where that is one word.
pub proof fn a_species_is_shown_by_its_name(name: Seq<char>)
    requires
        forall|i: int| 0 <= i < name.len() ==> #[trigger] name[i] != '_',
    ensures
        displayed("SPECIES_"@ + name) == name,
        name_matches(displayed("SPECIES_"@ + name), name),
{
    reveal_strlit("SPECIES_");
    reveal_strlit("_M");
    reveal_strlit("_F");
    let key = "SPECIES_"@ + name;
    assert(key.subrange(0, 8) =~= "SPECIES_"@);
    assert(key.subrange(8, key.len() as int) =~= name);
    assert(!begins(name, "SPECIES_"@)) by {
        if begins(name, "SPECIES_"@) {
            assert(name.subrange(0, 8)[7] == '_');
        }
    }
    assert(!ends(name, "_M"@)) by {
        if ends(name, "_M"@) {
            assert(name.subrange(name.len() - 2, name.len() as int)[0] == '_');
        }
    }
    assert(!ends(name, "_F"@)) by {
        if ends(name, "_F"@) {
            assert(name.subrange(name.len() - 2, name.len() as int)[0] == '_');
        }
    }
    reveal_with_fuel(cut_start, 3);
    reveal_with_fuel(cut_end, 3);
    assert(cut_start(key, "SPECIES_"@) == name);
    assert(cut_end(name, "_M"@) == name);
    assert(cut_end(name, "_F"@) == name);
    assert(swapped(name, '_', ' ') =~= name);
}

/// A name that fits a Pokemon's own species explains it as that, whatever it may
/// become; else one that fits a species it evolves into explains it as the first
/// such.
pub proof fn a_name_is_explained_by_the_nearest_species(
    data: GameData,
    species: Seq<char>,
    read: Seq<char>,
    i: int,
)
    requires
        data.species@.len() > 0,
    ensures
        name_matches(displayed(species), read) ==> explained(data, species, read) == Some(species),
        !name_matches(displayed(species), read) && 0 <= i < evolutions_of(data, species).len()
            && name_matches(displayed(evolutions_of(data, species)[i]), read) && (forall|j: int|
            0 <= j < i ==> !name_matches(
                displayed(#[trigger] evolutions_of(data, species)[j]),
                read,
            )) ==> explained(data, species, read) == Some(evolutions_of(data, species)[i]),
{
    let one = seq![species];
    let next = evolutions_of(data, species);
    assert(one.drop_last() =~= Seq::empty());
    reveal_with_fuel(first_match, 3);
    reveal_with_fuel(seen, 3);
    assert(first_match(Seq::empty(), read) is None);
    reveal_with_fuel(next_generation, 3);
    assert(next_generation(data, one) =~= next);
    if !name_matches(displayed(species), read) && 0 <= i < next.len() && name_matches(
        displayed(next[i]),
        read,
    ) && (forall|j: int|
        0 <= j < i ==> !name_matches(displayed(#[trigger] next[j]), read)) {
        the_first_match_is_found(next, read, i);
    }
}

proof fn the_first_match_is_found(generation: Seq<Seq<char>>, read: Seq<char>, i: int)
    requires
        0 <= i < generation.len(),
        name_matches(displayed(generation[i]), read),
        forall|j: int| 0 <= j < i ==> !name_matches(displayed(#[trigger] generation[j]), read),
    ensures
        first_match(generation, read) == Some(generation[i]),
    decreases generation.len(),
{
    let rest = generation.drop_last();
    assert(forall|j: int| 0 <= j < rest.len() ==> rest[j] == generation[j]);
    if i < rest.len() {
        the_first_match_is_found(rest, read, i);
    } else {
        nothing_matches(rest, read);
    }
}

proof fn nothing_matches(generation: Seq<Seq<char>>, read: Seq<char>)
    requires
        forall|j: int|
            0 <= j < generation.len() ==> !name_matches(
                displayed(#[trigger] generation[j]),
                read,
            ),
    ensures
        first_match(generation, read) is None,
    decreases generation.len(),
{
    if generation.len() > 0 {
        let rest = generation.drop_last();
        assert(forall|j: int| 0 <= j < rest.len() ==> rest[j] == generation[j]);
        nothing_matches(rest, read);
        assert(!name_matches(displayed(generation[generation.len() - 1]), read));
    }
}

/// The name in a battle is that of the first member that it explains.
pub proof fn the_first_member_of_the_name_fights(
    data: GameData,
    members: Seq<Member>,
    read: Seq<char>,
    i: int,
)
    requires
        0 <= i < members.len(),
        explained(data, members[i].species@, read) is Some,
        forall|j: int|
            0 <= j < i ==> explained(data, (#[trigger] members[j]).species@, read) is None,
    ensures
        member_seen(data, members, read) == Some(
            (members[i], explained(data, members[i].species@, read)->0),
        ),
    decreases members.len(),
{
    let rest = members.drop_last();
    assert(forall|j: int| 0 <= j < rest.len() ==> rest[j] == members[j]);
    if i < rest.len() {
        the_first_member_of_the_name_fights(data, rest, read, i);
    } else {
        nobody_fights(data, rest, read);
    }
}

proof fn nobody_fights(data: GameData, members: Seq<Member>, read: Seq<char>)
    requires
        forall|j: int|
            0 <= j < members.len() ==> explained(
                data,
                (#[trigger] members[j]).species@,
                read,
            ) is None,
    ensures
        member_seen(data, members, read) is None,
    decreases members.len(),
{
    if members.len() > 0 {
        let rest = members.drop_last();
        assert(forall|j: int| 0 <= j < rest.len() ==> rest[j] == members[j]);
        nobody_fights(data, rest, read);
        assert(explained(data, members[members.len() - 1].species@, read) is None);
    }
}

// ---- News ----

/// A battle's numbers are news of the member exactly where its level differs
/// from what was known, or its health can be true and differs; only what differs
/// is told.
pub proof fn what_differs_is_news(battle: BattleObservation, m: Member)
    ensures
        ({
            let news = hud_news(battle, m);
            let leveled = battle.player_level is Some && battle.player_level->0 != m.level;
            let at = if battle.player_level is Some {
                battle.player_level->0
            } else {
                m.level
            };
            let hurt = battle.player_hp_numbers is Some && hp_plausible_for(
                battle.player_hp_numbers->0,
                at,
                Some(m.species@),
            ) && battle.player_hp_numbers != m.hp;
            &&& !leveled && !hurt ==> news.len() == 0
            &&& leveled || hurt ==> news.len() == 1 && news[0] == (GameEventV::PartyObserved {
                slot: m.slot,
                species: None,
                level: if leveled {
                    battle.player_level
                } else {
                    None
                },
                hp: if hurt {
                    battle.player_hp_numbers
                } else {
                    None
                },
                status: None,
            })
        }),
{
}

/// On the moves menu the PP that is shown is that of the move under the cursor,
/// counted by rows of two; it is news where the move, its most or what is left
/// was not known so. Off that menu nothing is told of moves.
pub proof fn shown_pp_is_of_the_move_under_the_cursor(
    data: GameData,
    battle: BattleObservation,
    m: Member,
    column: u8,
    row: u8,
)
    requires
        column <= 1,
        row <= 1,
        battle.menu == Some(BattleMenu::Moves { column, row }),
        battle.move_pp is Some,
        moves_news(data, battle, m) is None,
    ensures
        ({
            let at = 2 * row + column;
            let pp = battle.move_pp->0;
            let news = menu_news(data, battle, m);
            let known = at < m.moves@.len() && data.move_of(m.moves@[at]@) is Some
                && data.move_of(m.moves@[at]@)->0.pp == pp.1 && m.left(data, m.moves@[at]@) == pp.0;
            &&& at >= m.moves@.len() || known ==> news.len() == 0
            &&& at < m.moves@.len() && !known ==> news == seq![
                GameEventV::MovePpObserved {
                    slot: m.slot,
                    move_slot: at as u8,
                    cur: pp.0,
                    max: pp.1,
                },
            ]
        }),
{
    let at = 2 * row + column;
    let moves = lines_of(m.moves@);
    assert(moves.len() == m.moves@.len());
    if at < m.moves@.len() {
        assert(moves[at] == m.moves@[at]@);
    }
}

/// Moves that were all read and differ from those known are news, as they stand
/// on the screen.
pub proof fn other_moves_are_news(
    data: GameData,
    battle: BattleObservation,
    m: Member,
    moves: Seq<Seq<char>>,
)
    requires
        battle.menu is Some,
        battle.menu->0 is Moves,
        moves_news(data, battle, m) == Some(moves),
    ensures
        menu_news(data, battle, m)[0] == (GameEventV::MovesObserved { slot: m.slot, moves }),
        moves != lines_of(m.moves@),
        moves.len() > 0,
{
}

/// A battle tells of the member that fights: that it evolved where its name is
/// another species' now, and then what its numbers and its moves say. Where no
/// member explains the name, it corrects the species of one who is alone, and
/// tells nothing of several.
pub proof fn a_battle_tells_of_who_fights(data: GameData, party: Party, battle: BattleObservation)
    requires
        battle.player_name is Some,
    ensures
        ({
            let news = battle_news(data, party, battle);
            let name = battle.player_name->0@;
            let who = member_seen(data, party.members@, name);
            let read = data.species_read(name);
            &&& who is Some ==> ({
                let m = (who->0).0;
                let species = (who->0).1;
                let evolved = if species != m.species@ {
                    1int
                } else {
                    0
                };
                &&& evolved == 1 ==> news[0] == (GameEventV::Evolved { slot: m.slot, species })
                &&& news.subrange(evolved, news.len() as int) == hud_news(battle, m) + menu_news(
                    data,
                    battle,
                    m,
                )
            })
            &&& who is None && party.members@.len() == 1 && read is Some ==> news == seq![
                GameEventV::PartyObserved {
                    slot: party.members@[0].slot,
                    species: Some(read->0.key@),
                    level: battle.player_level,
                    hp: hp_shown(battle, party.members@[0]),
                    status: None,
                },
            ]
            &&& who is None && (party.members@.len() != 1 || read is None) ==> news.len() == 0
        }),
{
    let news = battle_news(data, party, battle);
    let who = member_seen(data, party.members@, battle.player_name->0@);
    if who is Some {
        let m = (who->0).0;
        let evolved = if (who->0).1 != m.species@ {
            1int
        } else {
            0
        };
        assert(news.subrange(evolved, news.len() as int) =~= hud_news(battle, m) + menu_news(
            data,
            battle,
            m,
        ));
    }
}

/// The members are those whose species is known, each by its place, in order.
pub proof fn members_are_the_known(mons: Seq<PartyMon>, i: int)
    ensures
        known_slots(mons).contains(i) <==> 0 <= i < mons.len() && mons[i].species.value is Some,
        forall|a: int, b: int|
            0 <= a < b < known_slots(mons).len() ==> known_slots(mons)[a] < known_slots(mons)[b],
    decreases mons.len(),
{
    if mons.len() > 0 {
        let front = mons.drop_last();
        let rest = known_slots(front);
        let all = known_slots(mons);
        members_are_the_known(front, i);
        assert forall|a: int| 0 <= a < rest.len() implies rest[a] < mons.len() - 1 by {
            members_are_the_known(front, rest[a]);
            assert(rest.contains(rest[a]));
        }
        if rest.contains(i) {
            let a = choose|a: int| 0 <= a < rest.len() && rest[a] == i;
            assert(all[a] == i);
        }
        if all.contains(i) && !rest.contains(i) {
            let a = choose|a: int| 0 <= a < all.len() && all[a] == i;
            assert(a >= rest.len()) by {
                if a < rest.len() {
                    assert(rest[a] == i);
                }
            }
        }
        if i == mons.len() - 1 && mons[i].species.value is Some {
            assert(all[rest.len() as int] == i);
        }
    }
}

/// The moves on the screen are read in order, places without one left out; one
/// that cannot be read leaves all of them unread.
pub proof fn moves_on_the_screen_are_read(data: GameData, names: Seq<Seq<char>>, name: Seq<char>)
    ensures
        moves_read(data, Seq::empty()) == Some(Seq::<Seq<char>>::empty()),
        name.len() == 0 || name == "-"@ ==> moves_read(data, names.push(name)) == moves_read(
            data,
            names,
        ),
        name.len() > 0 && name != "-"@ && data.move_read(name) is None ==> moves_read(
            data,
            names.push(name),
        ) is None,
        name.len() > 0 && name != "-"@ && data.move_read(name) is Some && moves_read(
            data,
            names,
        ) is Some ==> moves_read(data, names.push(name)) == Some(
            moves_read(data, names)->0.push(data.move_read(name)->0.key@),
        ),
        moves_read(data, names) is None ==> moves_read(data, names.push(name)) is None,
{
    assert(names.push(name).drop_last() =~= names);
}

/// A place with a move names it, one whose move was not read stands as a question
/// mark, and an empty place is left out.
pub proof fn places_are_named_in_order(slots: Seq<Option<MoveSlot>>, s: MoveSlot)
    ensures
        slot_names(slots.push(None)) == slot_names(slots),
        s.mv.value is Some ==> slot_names(slots.push(Some(s))) == slot_names(slots).push(
            s.mv.value->0@,
        ),
        s.mv.value is None ==> slot_names(slots.push(Some(s))) == slot_names(slots).push(
            seq!['?'],
        ),
{
    reveal_strlit("?");
    assert("?"@ =~= seq!['?']);
    assert(slots.push(None).drop_last() =~= slots);
    assert(slots.push(Some(s)).drop_last() =~= slots);
}

/// The party is made of the Pokemon whose species is known: each has its place, and
/// the first of them leads.
pub proof fn the_first_known_leads(p: Party, mons: Seq<PartyMon>, i: int)
    requires
        p.is_of(mons),
    ensures
        0 <= i < mons.len() && mons[i].species.value is Some ==> exists|k: int|
            0 <= k < p.members@.len() && (#[trigger] p.members@[k]).species@
                == mons[i].species.value->0@ && p.members@[k].slot == i as u8
                && p.members@[k].hp == mons[i].hp.value,
        0 <= i < mons.len() && mons[i].species.value is Some && (forall|j: int|
            0 <= j < i ==> (#[trigger] mons[j]).species.value is None) ==> p.leader() is Some
            && p.leader()->0.species@ == mons[i].species.value->0@ && p.leader()->0.slot == i as u8,
        (forall|j: int| 0 <= j < mons.len() ==> (#[trigger] mons[j]).species.value is None)
            ==> p.leader() is None,
{
    let slots = known_slots(mons);
    members_are_the_known(mons, i);
    if 0 <= i < mons.len() && mons[i].species.value is Some {
        let k = choose|k: int| 0 <= k < slots.len() && slots[k] == i;
        assert(p.members@[k].describes(mons[slots[k]], slots[k]));
        assert(p.members@[k].species@ == mons[i].species.value->0@);
        if forall|j: int| 0 <= j < i ==> (#[trigger] mons[j]).species.value is None {
            members_are_the_known(mons, slots[0]);
            assert(slots.contains(slots[0]));
            if k > 0 {
                assert(slots[0] < slots[k]);
                assert(mons[slots[0]].species.value is None);
            }
        }
    }
    if p.members@.len() > 0 {
        members_are_the_known(mons, slots[0]);
        assert(slots.contains(slots[0]));
        assert(mons[slots[0]].species.value is Some);
    }
}

/// Stats that were read are those of the Pokemon, behind its HP, where each can be
/// true at its level; a reading that cannot, as one from before a level was
/// gained, tells nothing.
pub proof fn stats_are_what_was_read(m: Member, data: GameData, r: Option<[u32; 6]>, i: int)
    requires
        m.has_stats(data, r),
        0 <= i < 5,
    ensures
        r is Some ==> m.read_stats is Some && m.hp is Some && r->0@[0] == (m.hp->0).1
            && r->0@[i + 1] == m.read_stats->0@[i],
        m.read_stats is None || m.hp is None || data.species_of(m.species@) is None ==> r is None,
        m.read_stats is Some && data.species_of(m.species@) is Some && !(stat_range(
            data.species_of(m.species@)->0.base@[i + 1],
            m.level,
        ).0 <= m.read_stats->0@[i] <= stat_range(
            data.species_of(m.species@)->0.base@[i + 1],
            m.level,
        ).1) ==> r is None,
{
    if r is Some {
        assert(r->0@[i + 1] == m.read_stats->0@[i]);
    }
    if m.read_stats is Some && data.species_of(m.species@) is Some {
        let read = m.read_stats->0@[i];
    }
}

/// Healing fills the health and every move, and changes nothing else.
pub proof fn healing_makes_whole(m: Member, before: Member, data: GameData, mv: Seq<char>)
    requires
        m.healed_from(before),
    ensures
        m.left(data, mv) == max_pp(data, mv),
        before.hp is Some ==> m.hp is Some && (m.hp->0).0 == (before.hp->0).1 && (m.hp->0).1 == (
        before.hp->0).1,
        before.hp is None ==> m.hp is None,
        m.species == before.species && m.level == before.level && m.moves == before.moves,
{
}

} // verus!
