use pokebot_agent::event::GameEvent;
use pokebot_agent::gamedata::{GameData, MoveData, SpeciesData};
use pokebot_agent::observe::{BattleMenu, BattleObservation};
use pokebot_agent::party::{
    battle_events, display_name, names_match, plausible_hp, plausible_hp_for, Member, Party,
};
use pokebot_agent::state::{GameState, Knowledge, MoveSlot, PartyMon};

fn mv(key: &str, name: &str, power: u8, pp: u8) -> MoveData {
    MoveData {
        key: key.into(),
        name: name.into(),
        power,
        accuracy: 100,
        pp,
        kind: None,
        effect: None,
    }
}

fn species(key: &str, name: &str, evolutions: &[&str]) -> SpeciesData {
    SpeciesData {
        key: key.into(),
        name: name.into(),
        base: [45, 49, 49, 45, 65, 65],
        types: vec![],
        evolutions: evolutions.iter().map(|e| e.to_string()).collect(),
    }
}

fn data() -> GameData {
    GameData {
        items: vec![],
        moves: vec![
            mv("MOVE_TACKLE", "TACKLE", 35, 35),
            mv("MOVE_GROWL", "GROWL", 0, 40),
            mv("MOVE_POUND", "POUND", 40, 35),
            mv("MOVE_LEECH_SEED", "LEECH SEED", 0, 10),
            mv("MOVE_VINE_WHIP", "VINE WHIP", 35, 10),
        ],
        species: vec![
            species("SPECIES_BULBASAUR", "BULBASAUR", &["SPECIES_IVYSAUR"]),
            species("SPECIES_IVYSAUR", "IVYSAUR", &["SPECIES_VENUSAUR"]),
            species("SPECIES_VENUSAUR", "VENUSAUR", &[]),
            species("SPECIES_PIDGEY", "PIDGEY", &[]),
        ],
        marts: vec![],
        balls: vec![],
    }
}

/// A newly obtained Pokémon, known from game data (default moves, full PP).
fn obtained(species: &str, level: u8) -> PartyMon {
    let slot = |mv: &str, pp: u8| {
        Some(MoveSlot {
            mv: Knowledge::derived(mv.to_owned(), 1),
            pp: Knowledge::derived((pp, pp), 1),
        })
    };
    PartyMon {
        species: Knowledge::derived(species.to_owned(), 1),
        level: Knowledge::derived(level, 1),
        moves: [
            slot("MOVE_TACKLE", 35),
            slot("MOVE_GROWL", 40),
            slot("MOVE_LEECH_SEED", 10),
            slot("MOVE_VINE_WHIP", 10),
        ],
        ..PartyMon::default()
    }
}

fn state_with(species: &str, level: u8) -> GameState {
    let mut state = GameState::default();
    state.saved.party = Knowledge::derived(vec![obtained(species, level)], 1);
    state
}

fn hud(name: &str, level: u8) -> BattleObservation {
    BattleObservation {
        menu: Some(BattleMenu::Moves { column: 0, row: 0 }),
        player_name: Some(name.into()),
        player_level: Some(level),
        player_hp_numbers: Some((28, 49)),
        opponent_name: None,
        opponent_level: None,
        player_hp: Some(562),
        opponent_hp: None,
        move_pp: Some((12, 35)),
        move_names: vec![
            "TACKLE".into(),
            "GROWL".into(),
            "LEECH SEED".into(),
            "VINE WHIP".into(),
        ],
        opponent_caught: None,
        opponent_shiny: None,
    }
}

#[test]
fn the_view_follows_the_state() {
    let d = data();
    let party = Party::from_state(&state_with("SPECIES_BULBASAUR", 10));
    let lead = party.lead().unwrap();
    assert_eq!(lead.species, "SPECIES_BULBASAUR");
    assert_eq!(
        lead.moves,
        vec!["MOVE_TACKLE", "MOVE_GROWL", "MOVE_LEECH_SEED", "MOVE_VINE_WHIP"]
    );
    assert_eq!(lead.pp_left(&d, "MOVE_TACKLE"), 35);
}

#[test]
fn hud_and_move_menu_become_events() {
    let d = data();
    let party = Party::from_state(&state_with("SPECIES_BULBASAUR", 15));
    let events = battle_events(&d, &party, &hud("I?YSAUR", 16));
    assert!(events.contains(&GameEvent::Evolved { slot: 0, species: "SPECIES_IVYSAUR".into() }));
    assert!(events.contains(&GameEvent::MovePpObserved {
        slot: 0,
        move_slot: 0,
        cur: 12,
        max: 35
    }));
    assert!(events.iter().any(|e| matches!(
        e,
        GameEvent::PartyObserved { level: Some(16), hp: Some((28, 49)), .. }
    )));
}

#[test]
fn wrong_species_of_a_single_member_self_corrects() {
    let d = data();
    // Knowledge from another save: IVYSAUR Lv18, but the game has BULBASAUR.
    let mut state = state_with("SPECIES_IVYSAUR", 18);
    let events = battle_events(&d, &Party::from_state(&state), &hud("BULBASAUR", 14));
    assert_eq!(
        events,
        vec![GameEvent::PartyObserved {
            slot: 0,
            species: Some("SPECIES_BULBASAUR".into()),
            level: Some(14),
            hp: Some((28, 49)),
            status: None,
        }]
    );
    // Once taken over, the lead is the one the game shows.
    let mon = &mut state.saved.party.value.as_mut().unwrap()[0];
    mon.species = Knowledge::observed("SPECIES_BULBASAUR".into(), 2);
    mon.level = Knowledge::observed(14, 2);
    let lead = Party::from_state(&state).lead().cloned().unwrap();
    assert_eq!((lead.species.as_str(), lead.level), ("SPECIES_BULBASAUR", 14));
}

#[test]
fn unknown_name_with_several_members_emits_nothing() {
    let d = data();
    let mut state = state_with("SPECIES_IVYSAUR", 18);
    state.saved.party.value.as_mut().unwrap().push(obtained("SPECIES_PIDGEY", 5));
    assert!(battle_events(&d, &Party::from_state(&state), &hud("BULBASAUR", 14)).is_empty());
}

#[test]
fn unchanged_hud_emits_nothing() {
    let d = data();
    let mut state = state_with("SPECIES_BULBASAUR", 10);
    let events = battle_events(&d, &Party::from_state(&state), &hud("BULBASAUR", 10));
    assert!(!events.is_empty());
    // What the events said is known now.
    let mon = &mut state.saved.party.value.as_mut().unwrap()[0];
    mon.hp = Knowledge::observed((28, 49), 2);
    mon.moves[0].as_mut().unwrap().pp = Knowledge::observed((12, 35), 2);
    assert!(battle_events(&d, &Party::from_state(&state), &hud("BULBASAUR", 10)).is_empty());
}

#[test]
fn ambiguous_move_name_emits_nothing() {
    let d = data();
    let state = state_with("SPECIES_BULBASAUR", 10);
    let mut obs = hud("BULBASAUR", 10);
    obs.move_names =
        vec!["?????".into(), "GROWL".into(), "LEECH SEED".into(), "VINE WHIP".into()];
    let events = battle_events(&d, &Party::from_state(&state), &obs);
    assert!(!events.iter().any(|e| matches!(e, GameEvent::MovesObserved { .. })));
}

#[test]
fn impossible_hp_is_told() {
    assert!(plausible_hp((22, 22), 12));
    assert!(!plausible_hp((2, 2), 12));
    assert!(!plausible_hp((30, 22), 12));
    assert!(plausible_hp_for((1, 1), 40, Some("SPECIES_SHEDINJA")));
    assert!(!plausible_hp_for((1, 1), 40, None));
}

#[test]
fn names_are_printed_and_matched() {
    assert_eq!(display_name("SPECIES_MR_MIME"), "MR MIME");
    assert!(names_match("IVYSAUR", "I?YSAUR"));
    assert!(!names_match("IVYSAUR", "VENUSAUR"));
}

#[test]
fn healing_restores_hp_and_pp() {
    let d = data();
    let mut m = Member::new("SPECIES_PIDGEY", 5, vec!["MOVE_TACKLE".into()]);
    m.hp = Some((3, 20));
    m.pp_used.push(("MOVE_TACKLE".into(), 35));
    assert_eq!(m.pp_left(&d, "MOVE_TACKLE"), 0);
    m.heal();
    assert_eq!((m.hp, m.pp_left(&d, "MOVE_TACKLE")), (Some((20, 20)), 35));
}

#[test]
fn wild_battles_leave_a_reserve() {
    let data = data();
    let moves = ["MOVE_TACKLE", "MOVE_GROWL", "MOVE_VINE_WHIP"];
    let mut m = Member::new("SPECIES_BULBASAUR", 10, moves.iter().map(|m| m.to_string()).collect());
    // Tackle (35 PP) in full, Vine Whip (10 PP) above the reserve, Growl not at all.
    assert_eq!(m.wild_attack_pp(&data, 4), 35 + 6);
    m.pp_used = vec![("MOVE_TACKLE".into(), 5), ("MOVE_VINE_WHIP".into(), 8)];
    assert_eq!(m.wild_attack_pp(&data, 4), 30);
}
