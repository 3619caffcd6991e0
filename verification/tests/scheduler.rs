use pokebot_agent::event::{GameEvent, Pocket, Status};
use pokebot_agent::gamedata::{GameData, ItemData, MoveData};
use pokebot_agent::input::Direction;
use pokebot_agent::observe::PlayerPose;
use pokebot_agent::recovery::{
    encounter_density, healers_nearby, medicines, recovery, ways_to_healers, WalkLeg, WayAnswer,
    SECOND,
};
use pokebot_agent::scheduler::{health, layer, Layer, Need, Scheduler};
use pokebot_agent::state::{GameState, Knowledge, MoveSlot, PartyMon};
use pokebot_agent::world::{
    Behavior, Connection, MapData, MapObject, Tile, Warp, World,
};

fn data() -> GameData {
    GameData {
        items: vec![],
        moves: vec![MoveData {
            key: "MOVE_TACKLE".into(),
            name: "TACKLE".into(),
            power: 35,
            accuracy: 100,
            pp: 35,
            kind: None,
            effect: None,
        }],
        species: vec![],
        marts: vec![],
        balls: vec![],
    }
}

fn mon(hp: u16) -> PartyMon {
    PartyMon {
        hp: Knowledge::observed((hp, 100), 1),
        level: Knowledge::observed(20, 1),
        status: Knowledge::observed(Status::Healthy, 1),
        moves: [
            Some(MoveSlot {
                mv: Knowledge::observed("MOVE_TACKLE".into(), 1),
                pp: Knowledge::observed((20, 35), 1),
            }),
            None,
            None,
            None,
        ],
        ..Default::default()
    }
}

fn state_of(mons: Vec<PartyMon>) -> GameState {
    let mut s = GameState::default();
    s.saved.party = Knowledge::observed(mons, 1);
    s
}

#[test]
fn last_usable_mon_is_more_urgent_than_one_wounded_member() {
    let d = data();
    assert_eq!(health(Some(&vec![mon(45)]), &d), Some(Need::HealUrgent));
    assert_eq!(health(Some(&vec![mon(45), mon(100)]), &d), Some(Need::HealSoon));
    assert_eq!(health(Some(&vec![mon(34), mon(100)]), &d), Some(Need::HealUrgent));
    let mut unknown = mon(100);
    unknown.hp = Knowledge::unknown();
    assert_eq!(health(Some(&vec![unknown]), &d), Some(Need::AuditParty));
}

#[test]
fn events_coalesce_and_recovery_clears_the_queue() {
    let d = data();
    let mut state = state_of(vec![mon(45)]);
    let mut s = Scheduler { enabled: true, ..Default::default() };
    assert!(s.event(&GameEvent::BattleEnded, &state, &d, None));
    assert!(!s.event(&GameEvent::BattleEnded, &state, &d, None));
    assert_eq!(s.queue, vec![Need::HealUrgent]);
    state.saved.party = Knowledge::observed(vec![mon(100)], 2);
    s.event(&GameEvent::PartyAudited { members: 1 }, &state, &d, None);
    assert!(s.queue.is_empty());
}

#[test]
fn battle_end_reuses_health_and_only_audits_unknown_facts() {
    let d = data();
    let mut state = state_of(vec![mon(100)]);
    let mut s = Scheduler { enabled: true, ..Default::default() };
    s.event(&GameEvent::BattleEnded, &state, &d, None);
    assert!(s.queue.is_empty());

    // The last battle's HUD replaces HP; the inactive roster is retained.
    state.saved.party.value.as_mut().unwrap()[0].hp = Knowledge::observed((60, 100), 2);
    s.event(&GameEvent::BattleEnded, &state, &d, None);
    assert_eq!(s.queue, vec![Need::HealSoon]);
    state.saved.party.value.as_mut().unwrap()[0].hp = Knowledge::observed((40, 100), 3);
    s.event(&GameEvent::BattleEnded, &state, &d, None);
    assert_eq!(s.queue, vec![Need::HealUrgent]);
    state.saved.party.value.as_mut().unwrap()[0].hp = Knowledge::unknown();
    s.event(&GameEvent::BattleEnded, &state, &d, None);
    assert_eq!(s.queue, vec![Need::AuditParty]);
}

fn super_potion(d: &mut GameData, state: &mut GameState) {
    d.items.push(ItemData {
        key: "ITEM_SUPER_POTION".into(),
        name: "SUPER POTION".into(),
        pocket: Some("POCKET_ITEMS".into()),
        price: 700,
    });
    state.saved.pockets.push((
        Pocket::Items,
        Knowledge::observed(vec![("ITEM_SUPER_POTION".into(), 1)], 1),
    ));
}

#[test]
fn medicines_must_resolve_health_without_hiding_pp_or_status_needs() {
    let mut d = data();
    let mut state = state_of(vec![mon(45)]);
    super_potion(&mut d, &mut state);
    let choices = medicines(&state, &d, "Route1");
    assert_eq!(choices.len(), 1);
    // 70 seconds.
    assert_eq!(choices[0].item_cost_atto, 70 * SECOND);
    assert_eq!(choices[0].score_atto, 85 * SECOND);
    state.saved.party.value.as_mut().unwrap()[0].status =
        Knowledge::observed(Status::Poisoned, 2);
    assert!(medicines(&state, &d, "Route1").is_empty());
    let m = &mut state.saved.party.value.as_mut().unwrap()[0];
    m.status = Knowledge::observed(Status::Healthy, 2);
    m.moves[0].as_mut().unwrap().pp = Knowledge::observed((0, 35), 2);
    assert!(medicines(&state, &d, "Route1").is_empty());
}

#[test]
fn a_fact_contradiction_invalidates_the_plan_but_health_only_queues_recovery() {
    let d = data();
    let mut s = Scheduler { enabled: true, ..Default::default() };
    let state = state_of(vec![mon(45)]);
    s.event(&GameEvent::BattleEnded, &state, &d, None);
    assert!(s.invalidated.is_none());
    let event = GameEvent::FlagObserved { flag: "FLAG_A".into(), value: false };
    // Nothing that is assumed is known to be false: the plan holds.
    assert!(!s.event(&event, &state, &d, None));
    assert!(s.event(&event, &state, &d, Some("flag FLAG_A")));
    assert_eq!(
        s.invalidated.as_deref(),
        Some("event contradicted active assumption: flag FLAG_A")
    );
    // Health is not judged on such events.
    assert_eq!(s.queue, vec![Need::HealUrgent]);
}

#[test]
fn a_scheduler_that_is_off_takes_no_note() {
    let d = data();
    let mut s = Scheduler::default();
    assert!(!s.event(&GameEvent::BattleEnded, &state_of(vec![mon(45)]), &d, None));
    assert!(s.queue.is_empty());
}

#[test]
fn events_concern_layers() {
    assert_eq!(layer(&GameEvent::Healed), Some(Layer::Goals));
    assert_eq!(layer(&GameEvent::MoneyObserved { amount: 1 }), Some(Layer::Plan));
    assert_eq!(layer(&GameEvent::BattleStarted), Some(Layer::Tool));
    assert_eq!(layer(&GameEvent::MapVisited { map: "Route1".into() }), Some(Layer::Motion));
    assert_eq!(layer(&GameEvent::GameSaved), None);
}

const PLAIN: Tile = Tile { behavior: Behavior::Plain, collision: 0, encounters: false };

fn map(name: &str, to: &[&str], healer: Option<u32>) -> MapData {
    MapData {
        id: format!("MAP_{}", name.to_uppercase()),
        name: name.into(),
        width: 4,
        height: 2,
        rows: vec![vec![PLAIN; 4]; 2],
        warps: to
            .iter()
            .map(|m| Warp {
                x: 0,
                y: 0,
                dest_map: format!("MAP_{}", m.to_uppercase()),
                dest_warp: 0,
                lands: None,
            })
            .collect(),
        objects: vec![MapObject {
            local_id: 4,
            x: Some(1),
            y: Some(1),
            movement: None,
            graphics: None,
        }],
        connections: vec![],
        crossings: vec![],
        passages: vec![],
        healer,
    }
}

/// The house with a healer, a town, a center, and a road of five maps.
fn world() -> World {
    let mut town = map("Town", &["House", "Center", "R1"], None);
    town.connections
        .push(Connection { direction: Some(Direction::Up), map: "MAP_AISLE".into() });
    World {
        maps: vec![
            map("House", &["Town"], Some(4)),
            town,
            map("Center", &["Town"], Some(4)),
            map("Aisle", &[], Some(4)),
            map("R1", &["R2"], None),
            map("R2", &["R3"], None),
            map("R3", &["R4"], Some(4)),
            map("R4", &["R5"], Some(4)),
            map("R5", &[], Some(4)),
        ],
    }
}

#[test]
fn healers_are_looked_for_nearby() {
    let near = healers_nearby(&world(), "House");
    let names: Vec<(&str, usize)> = near.iter().map(|n| (n.name.as_str(), n.hops)).collect();
    // R5 is six hops away.
    assert_eq!(
        names,
        vec![("House", 0), ("Aisle", 2), ("Center", 2), ("R3", 4), ("R4", 5)]
    );
    assert_eq!(healers_nearby(&world(), "R1").len(), 3);
}

fn answer(found: bool, cost_s: u128, legs: &[(&str, u32)]) -> WayAnswer {
    WayAnswer {
        found,
        cost_atto: cost_s * SECOND,
        back_atto: Some(0),
        legs: legs.iter().map(|(m, n)| WalkLeg { map: m.to_string(), tiles: *n }).collect(),
    }
}

#[test]
fn recovery_prices_tile_routes_and_includes_mom() {
    let world = world();
    let d = data();
    let state = GameState::default();
    let from = PlayerPose { map: "House".into(), x: 0, y: 0 };
    let near = healers_nearby(&world, "House");
    let qs = ways_to_healers(&world, &near).unwrap();
    // Four tiles to talk from at each of the five healers.
    assert_eq!(qs.len(), 20);
    assert_eq!((qs[0].map.as_str(), qs[0].x, qs[0].y), ("House", 1, 2));
    let answers: Vec<WayAnswer> = qs
        .iter()
        .map(|q| match q.map.as_str() {
            "House" => answer(q.y == 1, 3, &[]),
            "Center" => answer(true, 2, &[("Town", 10)]),
            _ => answer(false, 0, &[]),
        })
        .collect();
    let choice =
        recovery(&world, &state, &d, &from, Some(&qs), &answers, true, Some(0)).unwrap();
    // No encounters on the way to the center: it is cheaper.
    assert_eq!(choice.map, "Center");
    let mut grassy = self::world();
    grassy.maps[1].rows[0][0].encounters = true;
    grassy.maps[1].rows[0][1].collision = 1;
    assert_eq!(encounter_density(&grassy.maps[1]), (7, 1));
    let choice =
        recovery(&grassy, &state, &d, &from, Some(&qs), &answers, true, Some(0)).unwrap();
    assert_eq!(choice.map, from.map);
    assert!(choice.medicine.is_none());
    assert_eq!(choice.score_atto, 15 * SECOND);
    // Ten tiles at one in seven, four seconds each where it is urgent.
    let all: Vec<WayAnswer> = qs
        .iter()
        .map(|q| answer(q.map == "Center", 2, &[("Town", 10)]))
        .collect();
    let choice = recovery(&grassy, &state, &d, &from, Some(&qs), &all, true, Some(0)).unwrap();
    assert_eq!(choice.encounter_risk_atto, 40 * SECOND / 7);
}

#[test]
fn a_detour_costs_what_it_adds() {
    let world = world();
    let d = data();
    let state = GameState::default();
    let from = PlayerPose { map: "Center".into(), x: 0, y: 0 };
    let qs = ways_to_healers(&world, &healers_nearby(&world, "Center")).unwrap();
    let with_back = |back: Option<u128>| -> Vec<WayAnswer> {
        qs.iter()
            .map(|q| WayAnswer {
                back_atto: back.map(|s| s * SECOND),
                ..answer(q.map == "Center", 5, &[])
            })
            .collect()
    };
    let priced = |back: Option<u128>, urgent: bool, base: Option<u128>| {
        recovery(
            &world,
            &state,
            &d,
            &from,
            Some(&qs),
            &with_back(back),
            urgent,
            base.map(|s| s * SECOND),
        )
        .map(|r| r.added_travel_atto / SECOND)
    };
    // 5 there, 20 on from there, 18 without: 7 more.
    assert_eq!(priced(Some(20), false, Some(18)), Some(7));
    // Never less than nothing.
    assert_eq!(priced(Some(1), false, Some(18)), Some(0));
    // Urgent, or with no way on anyway: the way there alone.
    assert_eq!(priced(Some(20), true, Some(18)), Some(5));
    assert_eq!(priced(None, false, None), Some(5));
    // No way back to the plan: not taken.
    assert_eq!(priced(None, false, Some(18)), None);
    // A healer whose tile is unknown: nothing is chosen.
    let mut unknown = self::world();
    unknown.maps[0].objects.clear();
    assert!(ways_to_healers(&unknown, &healers_nearby(&unknown, "Center")).is_none());
    assert!(recovery(&unknown, &state, &d, &from, None, &vec![], true, None).is_none());
}

#[test]
fn medicine_is_taken_where_it_is_cheaper() {
    let world = World { maps: vec![] };
    let mut d = data();
    let mut state = state_of(vec![mon(45)]);
    super_potion(&mut d, &mut state);
    let from = PlayerPose { map: "Route1".into(), x: 0, y: 0 };
    let choice =
        recovery(&world, &state, &d, &from, Some(&vec![]), &vec![], true, Some(0)).unwrap();
    assert_eq!(choice.medicine.as_deref(), Some("ITEM_SUPER_POTION"));
    assert_eq!(choice.map, "Route1");
}

#[test]
fn prices_are_told_apart_below_a_nanosecond() {
    let mut world = world();
    // Three tiles to walk on in the town, one of them grass.
    for (i, t) in world.maps[1].rows.iter_mut().flatten().enumerate() {
        t.collision = u8::from(i >= 3);
    }
    world.maps[1].rows[0][0].encounters = true;
    assert_eq!(encounter_density(&world.maps[1]), (3, 1));
    let from = PlayerPose { map: "House".into(), x: 0, y: 0 };
    let qs = ways_to_healers(&world, &healers_nearby(&world, "House")).unwrap();
    // The center costs a third of a second of risk, the aisle just more of travel.
    let answers: Vec<WayAnswer> = qs
        .iter()
        .map(|q| match q.map.as_str() {
            "Center" => answer(true, 0, &[("Town", 1)]),
            "Aisle" => WayAnswer {
                cost_atto: SECOND / 3 + 1,
                ..answer(true, 0, &[])
            },
            _ => answer(false, 0, &[]),
        })
        .collect();
    let state = GameState::default();
    let r = recovery(&world, &state, &data(), &from, Some(&qs), &answers, false, Some(0)).unwrap();
    assert_eq!((r.map.as_str(), r.encounter_risk_atto), ("Center", SECOND / 3));
}
