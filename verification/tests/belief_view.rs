use pokebot_agent::belief_view::{Predicate, Relation, StateBelief, Truth};
use pokebot_agent::event::Pocket;
use pokebot_agent::observe::PlayerPose;
use pokebot_agent::state::{GameState, Knowledge, MoveSlot, PartyMon};

#[test]
fn flags_vars_visited_and_position() {
    let mut s = GameState::default();
    s.saved.world.flags.push(("FLAG_A".into(), Knowledge::observed(true, 1)));
    s.saved.world.vars.push(("VAR_X".into(), Knowledge::followed(3, None)));
    s.saved.world.visited.push(("PalletTown".into(), Knowledge::observed(false, 1)));
    s.pose = Knowledge::observed(PlayerPose { map: "Route1".into(), x: 1, y: 2 }, 1);
    let b = StateBelief(&s);
    assert_eq!(b.eval(&Predicate::Flag { name: "FLAG_A".into(), is: true }), Truth::True);
    assert_eq!(b.eval(&Predicate::Flag { name: "FLAG_B".into(), is: true }), Truth::Unknown);
    assert_eq!(
        b.eval(&Predicate::Var { name: "VAR_X".into(), op: Relation::AtLeast, value: 3 }),
        Truth::True
    );
    assert_eq!(b.eval(&Predicate::Visited { map: "PalletTown".into() }), Truth::False);
    assert_eq!(b.eval(&Predicate::At { map: "Route1".into() }), Truth::True);
    let badge = Predicate::Badge { n: 1, flag: "FLAG_BADGE01_GET".into() };
    assert_eq!(b.eval(&badge), Truth::Unknown);
    s.saved.world.flags.push(("FLAG_BADGE01_GET".into(), Knowledge::observed(true, 2)));
    assert_eq!(StateBelief(&s).eval(&badge), Truth::True);
}

#[test]
fn items_need_a_known_pocket() {
    let mut s = GameState::default();
    let p = Predicate::HasItem { item: "ITEM_POKE_BALL".into(), n: 2 };
    assert_eq!(StateBelief(&s).eval(&p), Truth::Unknown);
    s.saved.pockets.push((
        Pocket::PokeBalls,
        Knowledge::observed(vec![("ITEM_POKE_BALL".to_string(), 5u16)], 1),
    ));
    assert_eq!(StateBelief(&s).eval(&p), Truth::True);
    let other = Predicate::HasItem { item: "ITEM_POTION".into(), n: 1 };
    // Other pockets unknown: it may be there.
    assert_eq!(StateBelief(&s).eval(&other), Truth::Unknown);
    // Every pocket known: it isn't.
    for pocket in [Pocket::Items, Pocket::KeyItems, Pocket::TmCase, Pocket::BerryPouch] {
        s.saved.pockets.push((pocket, Knowledge::observed(vec![], 1)));
    }
    assert_eq!(StateBelief(&s).eval(&other), Truth::False);
}

#[test]
fn badges_are_counted_where_the_flag_is_unknown() {
    let mut s = GameState::default();
    s.badges = Knowledge::observed(vec!["BOULDER".into()], 1);
    let b = StateBelief(&s);
    assert_eq!(b.eval(&Predicate::Badge { n: 1, flag: "F1".into() }), Truth::True);
    assert_eq!(b.eval(&Predicate::Badge { n: 2, flag: "F2".into() }), Truth::False);
}

#[test]
fn a_move_is_known_by_someone() {
    let mut s = GameState::default();
    let cut = Predicate::PartyHasMove { mv: "MOVE_CUT".into() };
    assert_eq!(StateBelief(&s).eval(&cut), Truth::Unknown);
    let mut mon = PartyMon::default();
    mon.moves[2] = Some(MoveSlot {
        mv: Knowledge::observed("MOVE_CUT".into(), 1),
        pp: Knowledge::observed((30, 30), 1),
    });
    s.saved.party = Knowledge::observed(vec![PartyMon::default(), mon], 1);
    assert_eq!(StateBelief(&s).eval(&cut), Truth::True);
    s.saved.party = Knowledge::observed(vec![PartyMon::default()], 1);
    assert_eq!(StateBelief(&s).eval(&cut), Truth::False);
}

#[test]
fn every_relation_holds_as_it_says() {
    let holds = |op: Relation| [op.holds(2, 3), op.holds(3, 3), op.holds(4, 3)];
    assert_eq!(holds(Relation::Equal), [false, true, false]);
    assert_eq!(holds(Relation::Different), [true, false, true]);
    assert_eq!(holds(Relation::Less), [true, false, false]);
    assert_eq!(holds(Relation::AtMost), [true, true, false]);
    assert_eq!(holds(Relation::More), [false, false, true]);
    assert_eq!(holds(Relation::AtLeast), [false, true, true]);
}
