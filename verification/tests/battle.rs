use pokebot_agent::battle::{
    choose_move, decide, disable_text, fallback_move, identify_opponent, is_switch_question,
    observe_page, usable_moves, BattleMemory, BattlePolicy,
};
use pokebot_agent::executor::Decision;
use pokebot_agent::gamedata::{GameData, MoveData, SpeciesData};
use pokebot_agent::observe::{BattleMenu, BattleObservation, Observation, ScreenState};
use pokebot_agent::party::{Member, Party};

fn mv(key: &str, name: &str, power: u8, pp: u8) -> MoveData {
    MoveData {
        key: key.into(),
        name: name.into(),
        power,
        accuracy: 100,
        pp,
        kind: None,
        effect: None,
    }
}

fn data() -> GameData {
    GameData {
        items: vec![],
        moves: vec![
            mv("MOVE_TACKLE", "TACKLE", 35, 35),
            mv("MOVE_SLEEP_POWDER", "SLEEP POWDER", 0, 15),
            mv("MOVE_LEECH_SEED", "LEECH SEED", 0, 10),
            mv("MOVE_VINE_WHIP", "VINE WHIP", 35, 10),
            mv("MOVE_POUND", "POUND", 40, 35),
        ],
        species: vec![SpeciesData {
            key: "SPECIES_IVYSAUR".into(),
            name: "IVYSAUR".into(),
            base: [60, 62, 63, 60, 80, 80],
            types: vec![],
            evolutions: vec![],
        }],
        marts: vec![],
        balls: vec![],
    }
}

fn ivysaur(used: &[(&str, u8)]) -> Party {
    let mut member = Member::new(
        "SPECIES_IVYSAUR",
        16,
        ["MOVE_TACKLE", "MOVE_SLEEP_POWDER", "MOVE_LEECH_SEED", "MOVE_VINE_WHIP"]
            .map(String::from)
            .to_vec(),
    );
    for (m, n) in used {
        member.pp_used.push(((*m).to_owned(), *n));
    }
    Party { members: vec![member] }
}

#[test]
fn wild_battles_spend_the_reserve_before_running_dry() {
    let data = data();
    let policy = BattlePolicy::default();
    let wild = BattleMemory::default();
    // Tackle empty, Vine Whip at the reserve: Vine Whip rather than nothing.
    let party = ivysaur(&[("MOVE_TACKLE", 35), ("MOVE_VINE_WHIP", 5)]);
    assert_eq!(
        choose_move(&data, &party, None, &wild, &policy),
        Some((3, "MOVE_VINE_WHIP".into()))
    );
    // No damaging PP at all: nothing to choose (the battle policy runs).
    let party = ivysaur(&[("MOVE_TACKLE", 35), ("MOVE_VINE_WHIP", 10)]);
    assert_eq!(choose_move(&data, &party, None, &wild, &policy), None);
}

fn moves_menu(column: u8, row: u8) -> Observation {
    let mut o = Observation::bare(1, ScreenState::BattleMoveSelection);
    o.battle = Some(BattleObservation {
        menu: Some(BattleMenu::Moves { column, row }),
        player_name: Some("IVYSAUR".into()),
        player_level: Some(16),
        player_hp_numbers: Some((50, 50)),
        opponent_name: None,
        opponent_level: None,
        player_hp: Some(1000),
        opponent_hp: Some(1000),
        move_pp: None,
        move_names: Vec::new(),
        opponent_caught: None,
        opponent_shiny: None,
    });
    o
}

/// In a trainer battle with the only damaging move disabled any accepted move
/// is chosen instead; only a lead with no PP at all fails.
#[test]
fn a_trainer_battle_with_the_only_attack_disabled_uses_another_move() {
    let data = data();
    let policy = BattlePolicy::default();
    // Tackle out of PP, Vine Whip disabled: Sleep Powder (slot 2).
    let party = ivysaur(&[("MOVE_TACKLE", 35)]);
    let mut memory = BattleMemory {
        trainer: true,
        disabled: Some("MOVE_VINE_WHIP".into()),
        ..BattleMemory::default()
    };
    assert_eq!(choose_move(&data, &party, None, &memory, &policy), None);
    assert_eq!(
        fallback_move(&data, &party, &memory),
        Some((1, "MOVE_SLEEP_POWDER".into()))
    );
    let o = moves_menu(1, 0);
    let mut events = Vec::new();
    match decide(&o, &policy, &mut memory, &party, &data, None, None, &mut events) {
        Some(Decision::Act(a)) => assert_eq!(a.label, "choose move 2 (SLEEP_POWDER)"),
        _ => panic!("unexpected decision"),
    }
    assert_eq!(memory.last_move.as_deref(), Some("MOVE_SLEEP_POWDER"));
    assert_eq!(memory.last_slot, Some((0, 1)));
    // No PP anywhere (the disabled move aside): fail.
    let party = ivysaur(&[
        ("MOVE_TACKLE", 35),
        ("MOVE_SLEEP_POWDER", 15),
        ("MOVE_LEECH_SEED", 10),
    ]);
    assert_eq!(fallback_move(&data, &party, &memory), None);
    match decide(&o, &policy, &mut memory, &party, &data, None, None, &mut events) {
        Some(Decision::Fail(r)) => assert_eq!(r, "no move has PP left"),
        _ => panic!("unexpected decision"),
    }
}

/// DISABLE on VINE WHIP: it is not chosen again every turn.
#[test]
fn a_disabled_move_is_not_chosen_until_disable_ends() {
    let data = data();
    let policy = BattlePolicy::default();
    let party = ivysaur(&[("MOVE_VINE_WHIP", 3)]);
    let mut memory = BattleMemory { trainer: true, ..BattleMemory::default() };
    assert_eq!(
        choose_move(&data, &party, None, &memory, &policy),
        Some((3, "MOVE_VINE_WHIP".into()))
    );
    // The foe's own moves and unrelated pages change nothing.
    for page in ["Foe JIGGLYPUFF's POUND was disabled!", "Foe JIGGLYPUFF used DISABLE!"] {
        observe_page(&mut memory, page, &party, &data);
        assert_eq!(memory.disabled, None, "{page}");
    }
    observe_page(&mut memory, "IVYSAUR's VINE WHIP was disabled!", &party, &data);
    assert_eq!(memory.disabled.as_deref(), Some("MOVE_VINE_WHIP"));
    assert_eq!(
        choose_move(&data, &party, None, &memory, &policy),
        Some((0, "MOVE_TACKLE".into()))
    );
    // Chosen anyway (e.g. the first page was missed): the refusal page
    // also marks it.
    memory.disabled = None;
    // As read: the font's apostrophe is `’`.
    observe_page(&mut memory, "IVYSAUR’s VINE WHIP is disabled!", &party, &data);
    assert_eq!(memory.disabled.as_deref(), Some("MOVE_VINE_WHIP"));
    observe_page(&mut memory, "IVYSAUR is disabled no more!", &party, &data);
    assert_eq!(memory.disabled, None);
    assert_eq!(
        choose_move(&data, &party, None, &memory, &policy),
        Some((3, "MOVE_VINE_WHIP".into()))
    );
}

#[test]
fn the_evaluated_best_is_chosen_among_the_usable() {
    let data = data();
    let policy = BattlePolicy::default();
    let party = ivysaur(&[]);
    let wild = BattleMemory::default();
    assert_eq!(
        usable_moves(&data, &party, &wild, &policy),
        ["MOVE_TACKLE", "MOVE_VINE_WHIP"].map(String::from).to_vec()
    );
    assert_eq!(
        choose_move(&data, &party, Some("MOVE_TACKLE"), &wild, &policy),
        Some((0, "MOVE_TACKLE".into()))
    );
    assert_eq!(choose_move(&data, &party, Some("MOVE_POUND"), &wild, &policy), None);
}

#[test]
fn a_low_lead_runs_from_a_wild_battle_only() {
    let data = data();
    let policy = BattlePolicy::default();
    let party = ivysaur(&[]);
    let mut o = moves_menu(0, 0);
    o.battle.as_mut().unwrap().player_hp = Some(349);
    let mut memory = BattleMemory::default();
    memory.catch.decided = true;
    let mut events = Vec::new();
    let mut label = |memory: &mut BattleMemory, o: &Observation| match decide(
        o,
        &policy,
        memory,
        &party,
        &data,
        None,
        None,
        &mut events,
    ) {
        Some(Decision::Act(a)) => a.label,
        other => panic!("{other:?}"),
    };
    assert_eq!(label(&mut memory, &o), "back to the command menu to RUN");
    o.battle.as_mut().unwrap().menu = Some(BattleMenu::Command { column: 0, row: 1 });
    assert_eq!(label(&mut memory, &o), "cursor to RUN: Right");
    // Three attempts, then it fights on; a trainer's battle is never run from.
    memory.run_attempts = 3;
    assert_eq!(label(&mut memory, &o), "cursor to FIGHT: Up");
    let mut trainer = BattleMemory { trainer: true, ..BattleMemory::default() };
    assert_eq!(label(&mut trainer, &o), "cursor to FIGHT: Up");
}

#[test]
fn no_menu_means_no_battle_input() {
    let data = data();
    let mut o = moves_menu(0, 0);
    o.battle.as_mut().unwrap().menu = None;
    let mut memory = BattleMemory::default();
    assert!(decide(
        &o,
        &BattlePolicy::default(),
        &mut memory,
        &ivysaur(&[]),
        &data,
        None,
        None,
        &mut Vec::new()
    )
    .is_none());
}

#[test]
fn disable_text_names_the_move() {
    let data = data();
    assert_eq!(
        disable_text("IVYSAUR's TACKLE was disabled!", "IVYSAUR", &data),
        Some(Some("MOVE_TACKLE".into()))
    );
    assert_eq!(disable_text("IVYSAUR is disabled no more!", "IVYSAUR", &data), Some(None));
    assert_eq!(disable_text("IVYSAUR's ZZZ was disabled!", "IVYSAUR", &data), None);
}

#[test]
fn the_switch_question_is_told() {
    assert!(is_switch_question("Will RED change POKéMON?"));
    assert!(!is_switch_question("RED will change POKéMON."));
}

#[test]
fn the_opponent_needs_a_name_and_a_level() {
    let data = data();
    let mut o = moves_menu(0, 0);
    assert_eq!(identify_opponent(&data, &o), None);
    let b = o.battle.as_mut().unwrap();
    b.opponent_name = Some("IVY?AUR".into());
    b.opponent_level = Some(12);
    assert_eq!(identify_opponent(&data, &o), Some(("SPECIES_IVYSAUR".into(), 12)));
}

#[test]
fn the_hud_goes_by_the_display_name() {
    let mut data = data();
    let mut row = |key: &str, name: &str| {
        let mut s = data.species[0].clone();
        s.key = key.into();
        s.name = name.into();
        data.species.push(s);
    };
    // The printed name has a dot, the display name has none.
    row("SPECIES_MR_MIME", "MR. MIME");
    row("SPECIES_NIDORAN_F", "NIDORAN♀");
    row("SPECIES_NIDORAN_M", "NIDORAN♂");
    row("SPECIES_KOFFING", "KOFFING");
    row("SPECIES_KOFFIND", "KOFFIND");
    let read = |name: &str| {
        let mut o = moves_menu(0, 0);
        let b = o.battle.as_mut().unwrap();
        b.opponent_name = Some(name.into());
        b.opponent_level = Some(12);
        identify_opponent(&data, &o).map(|(species, _)| species)
    };
    assert_eq!(read("MR MIME").as_deref(), Some("SPECIES_MR_MIME"));
    assert_eq!(read("MR. MIME"), None);
    // Two species share a display name: the first of them.
    assert_eq!(read("NIDORAN").as_deref(), Some("SPECIES_NIDORAN_F"));
    assert_eq!(read("NIDOR?N").as_deref(), Some("SPECIES_NIDORAN_F"));
    // Two display names could be meant: none.
    assert_eq!(read("KOFFIN?"), None);
    assert_eq!(read("KOFFING").as_deref(), Some("SPECIES_KOFFING"));
}
