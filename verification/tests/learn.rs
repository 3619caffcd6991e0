use pokebot_agent::action::{Action, Expectation};
use pokebot_agent::event::GameEvent;
use pokebot_agent::executor::Decision;
use pokebot_agent::gamedata::{GameData, MoveData, SpeciesData};
use pokebot_agent::input::{Button, ControllerCommand};
use pokebot_agent::learn::{parse, MoveLearning, TextFact};
use pokebot_agent::observe::MoveListObservation;
use pokebot_agent::party::{Member, Party};

#[test]
fn parses_the_pages_of_a_move_swap() {
    assert_eq!(
        parse("BULBASAUR is trying to learn POISONPOWDER."),
        vec![TextFact::Offered { pokemon: "BULBASAUR".into(), mv: "POISONPOWDER".into() }]
    );
    assert_eq!(
        parse("BULBASAUR forgot GROWL."),
        vec![TextFact::Forgot { pokemon: "BULBASAUR".into(), mv: "GROWL".into() }]
    );
    assert_eq!(
        parse("BULBASAUR learned POISONPOWDER!"),
        vec![TextFact::Learned { pokemon: "BULBASAUR".into(), mv: "POISONPOWDER".into() }]
    );
    assert_eq!(
        parse("Congratulations! Your BULBASAUR evolved into IVYSAUR!"),
        vec![TextFact::Evolved { pokemon: "BULBASAUR".into(), into: "IVYSAUR".into() }]
    );
    assert!(parse("Delete a move to make room for POISONPOWDER?").is_empty());
}

#[test]
fn a_refused_move_is_parsed() {
    assert_eq!(
        parse("BULBASAUR did not learn POISONPOWDER."),
        vec![TextFact::DidNotLearn { pokemon: "BULBASAUR".into(), mv: "POISONPOWDER".into() }]
    );
}

fn mv(key: &str, name: &str, power: u8, accuracy: u8, pp: u8, kind: &str, effect: &str) -> MoveData {
    MoveData {
        key: key.into(),
        name: name.into(),
        power,
        accuracy,
        pp,
        kind: Some(kind.into()),
        effect: Some(effect.into()),
    }
}

fn species(key: &str, name: &str, types: &[&str], evolutions: &[&str]) -> SpeciesData {
    SpeciesData {
        key: key.into(),
        name: name.into(),
        base: [45, 49, 49, 45, 65, 65],
        types: types.iter().map(|t| t.to_string()).collect(),
        evolutions: evolutions.iter().map(|t| t.to_string()).collect(),
    }
}

fn data() -> GameData {
    let grass = ["TYPE_GRASS", "TYPE_POISON"];
    GameData {
        items: vec![],
        moves: vec![
            mv("MOVE_TACKLE", "TACKLE", 35, 95, 35, "TYPE_NORMAL", "EFFECT_HIT"),
            mv("MOVE_GROWL", "GROWL", 0, 100, 40, "TYPE_NORMAL", "EFFECT_ATTACK_DOWN"),
            mv("MOVE_LEECH_SEED", "LEECH SEED", 0, 90, 10, "TYPE_GRASS", "EFFECT_LEECH_SEED"),
            mv("MOVE_VINE_WHIP", "VINE WHIP", 35, 100, 10, "TYPE_GRASS", "EFFECT_HIT"),
            mv("MOVE_POISON_POWDER", "POISONPOWDER", 0, 75, 35, "TYPE_POISON", "EFFECT_POISON"),
            mv("MOVE_SLEEP_POWDER", "SLEEP POWDER", 0, 75, 15, "TYPE_GRASS", "EFFECT_SLEEP"),
            mv("MOVE_RAZOR_LEAF", "RAZOR LEAF", 55, 95, 25, "TYPE_GRASS", "EFFECT_HIGH_CRITICAL"),
        ],
        species: vec![
            species("SPECIES_BULBASAUR", "BULBASAUR", &grass, &["SPECIES_IVYSAUR"]),
            species("SPECIES_IVYSAUR", "IVYSAUR", &grass, &["SPECIES_VENUSAUR"]),
            species("SPECIES_VENUSAUR", "VENUSAUR", &grass, &[]),
            species("SPECIES_NIDORAN_F", "NIDORAN♀", &["TYPE_POISON"], &["SPECIES_NIDORINA"]),
            species("SPECIES_NIDORINA", "NIDORINA", &["TYPE_POISON"], &[]),
            species("SPECIES_METAPOD", "METAPOD", &["TYPE_BUG"], &[]),
        ],
        marts: vec![],
        balls: vec![],
    }
}

fn member(slot: u8, species: &str, moves: &[&str]) -> Member {
    let mut m = Member::new(species, 15, moves.iter().map(|m| m.to_string()).collect());
    m.slot = slot;
    m
}

const BULBASAUR_MOVES: [&str; 4] =
    ["MOVE_TACKLE", "MOVE_GROWL", "MOVE_LEECH_SEED", "MOVE_VINE_WHIP"];

fn bulbasaur() -> Party {
    Party { members: vec![member(0, "SPECIES_BULBASAUR", &BULBASAUR_MOVES)] }
}

fn page(s: &str) -> Vec<String> {
    vec![s.to_owned()]
}

/// Reads `pages` in order; the events of the last one.
fn read(l: &mut MoveLearning, d: &GameData, party: &Party, pages: &[&str]) -> Vec<GameEvent> {
    let mut events = Vec::new();
    for p in pages {
        events = l.observe_page(&page(p), d, party, &vec![]).0;
    }
    events
}

fn list(moves: &[&str], selected: u8) -> MoveListObservation {
    MoveListObservation {
        moves: moves.iter().map(|m| m.to_string()).collect(),
        selected: Some(selected),
    }
}

const LIST: [&str; 5] = ["TACKLE", "GROWL", "LEECH SEED", "VINE WHIP", "POISONPOWDER"];

fn act(decision: Decision) -> Action {
    match decision {
        Decision::Act(a) => a,
        Decision::Wait(w) => panic!("waited: {w}"),
        Decision::Done(w) => panic!("done: {w}"),
        Decision::Fail(w) => panic!("failed: {w}"),
    }
}

fn pressed(a: &Action) -> Button {
    match &a.commands[..] {
        [ControllerCommand::Press(b)] => *b,
        other => panic!("{other:?}"),
    }
}

#[test]
fn a_swap_becomes_a_replace_event() {
    let d = data();
    let mut l = MoveLearning::default();
    let events = read(
        &mut l,
        &d,
        &bulbasaur(),
        &[
            "BULBASAUR is trying to learn POISONPOWDER.",
            "BULBASAUR forgot GROWL.",
            "BULBASAUR learned POISONPOWDER!",
        ],
    );
    assert_eq!(
        events,
        vec![GameEvent::MoveReplaced {
            slot: 0,
            move_slot: 1,
            old: "MOVE_GROWL".into(),
            new: "MOVE_POISON_POWDER".into(),
            max_pp: 35
        }]
    );
}

#[test]
fn move_list_moves_toward_the_row_to_forget_and_picks_it() {
    let d = data();
    let party = bulbasaur();
    let mut l = MoveLearning::default();
    read(&mut l, &d, &party, &["BULBASAUR is trying to learn POISONPOWDER."]);
    // GROWL (row 2) is the one to forget.
    let (decision, events) = l.on_move_list(&list(&LIST, 3), &d, &party, &vec![]);
    assert!(events.is_empty(), "the list matches the party view");
    let a = act(decision);
    assert_eq!(pressed(&a), Button::Up);
    assert_eq!(a.expect, Expectation::MoveListAt(2));
    let a = act(l.on_move_list(&list(&LIST, 0), &d, &party, &vec![]).0);
    assert_eq!(pressed(&a), Button::Down);
    assert_eq!(a.expect, Expectation::MoveListAt(1));
    let a = act(l.on_move_list(&list(&LIST, 1), &d, &party, &vec![]).0);
    assert_eq!(pressed(&a), Button::A);
    assert_eq!(a.expect, Expectation::MoveListClosed);
}

#[test]
fn listed_moves_that_differ_are_observed_and_rechosen() {
    let d = data();
    let party = bulbasaur();
    let mut l = MoveLearning::default();
    read(&mut l, &d, &party, &["BULBASAUR is trying to learn POISONPOWDER."]);
    assert_eq!(l.answer(&page("Delete a move to make room for POISONPOWDER?")), Some(true));
    // The game shows SLEEP POWDER where the view has GROWL: nothing is
    // worth forgetting any more, so the new move is skipped (row 5).
    let shown = ["TACKLE", "SLEEP POWDER", "LEECH SEED", "VINE WHIP", "POISONPOWDER"];
    let (decision, events) = l.on_move_list(&list(&shown, 0), &d, &party, &vec![]);
    assert_eq!(
        events,
        vec![GameEvent::MovesObserved {
            slot: 0,
            moves: ["MOVE_TACKLE", "MOVE_SLEEP_POWDER", "MOVE_LEECH_SEED", "MOVE_VINE_WHIP"]
                .map(String::from)
                .to_vec(),
        }]
    );
    let a = act(decision);
    assert_eq!(pressed(&a), Button::Down);
    assert_eq!(a.expect, Expectation::MoveListAt(1));
    assert_eq!(l.answer(&page("Stop learning POISONPOWDER?")), Some(true));
}

#[test]
fn a_worse_move_is_skipped_on_the_new_move_row() {
    let d = data();
    let party = Party {
        members: vec![member(
            0,
            "SPECIES_BULBASAUR",
            &["MOVE_TACKLE", "MOVE_POISON_POWDER", "MOVE_LEECH_SEED", "MOVE_VINE_WHIP"],
        )],
    };
    let mut l = MoveLearning::default();
    read(&mut l, &d, &party, &["BULBASAUR is trying to learn GROWL."]);
    let shown = ["TACKLE", "POISONPOWDER", "LEECH SEED", "VINE WHIP", "GROWL"];
    let a = act(l.on_move_list(&list(&shown, 4), &d, &party, &vec![]).0);
    assert_eq!(pressed(&a), Button::A);
    assert_eq!(a.expect, Expectation::MoveListClosed);
    assert!(a.label.contains("row 5"), "{}", a.label);
}

#[test]
fn questions_are_answered_from_the_choice() {
    let d = data();
    let party = bulbasaur();
    let mut l = MoveLearning::default();
    assert_eq!(l.answer(&page("Delete a move to make room for POISONPOWDER?")), None);
    // Forget: delete a move, don't stop learning.
    read(&mut l, &d, &party, &["BULBASAUR is trying to learn POISONPOWDER."]);
    assert_eq!(l.answer(&page("Delete a move to make room for POISONPOWDER?")), Some(true));
    assert_eq!(l.answer(&page("Stop learning POISONPOWDER?")), Some(false));
    assert_eq!(l.answer(&page("BULBASAUR forgot GROWL.")), None);
    // Skip: keep the moves, stop learning.
    let party = Party {
        members: vec![member(
            0,
            "SPECIES_BULBASAUR",
            &["MOVE_TACKLE", "MOVE_POISON_POWDER", "MOVE_LEECH_SEED", "MOVE_VINE_WHIP"],
        )],
    };
    read(&mut l, &d, &party, &["BULBASAUR is trying to learn GROWL."]);
    assert_eq!(l.answer(&page("Delete a move to make room for GROWL?")), Some(false));
    assert_eq!(l.answer(&page("Stop learning GROWL?")), Some(true));
}

#[test]
fn a_missed_forgot_page_changes_nothing() {
    let d = data();
    let mut l = MoveLearning::default();
    let events = read(
        &mut l,
        &d,
        &bulbasaur(),
        &["BULBASAUR is trying to learn POISONPOWDER.", "BULBASAUR learned POISONPOWDER!"],
    );
    assert!(events.is_empty(), "{events:?}");
}

#[test]
fn a_forgotten_move_from_an_earlier_offer_is_not_reused() {
    let d = data();
    let mut l = MoveLearning::default();
    let events = read(
        &mut l,
        &d,
        &bulbasaur(),
        &[
            "BULBASAUR is trying to learn POISONPOWDER.",
            "BULBASAUR forgot GROWL.",
            // The "learned" page was missed; a new offer starts.
            "BULBASAUR is trying to learn RAZOR LEAF.",
            "BULBASAUR learned RAZOR LEAF!",
        ],
    );
    assert!(events.is_empty(), "{events:?}");
}

#[test]
fn a_forgotten_move_applies_only_to_its_pokemon() {
    let d = data();
    let party = Party {
        members: vec![
            member(0, "SPECIES_BULBASAUR", &BULBASAUR_MOVES),
            member(1, "SPECIES_IVYSAUR", &BULBASAUR_MOVES),
        ],
    };
    let mut l = MoveLearning::default();
    let events = read(
        &mut l,
        &d,
        &party,
        &["BULBASAUR forgot GROWL.", "IVYSAUR learned POISONPOWDER!"],
    );
    assert!(events.is_empty(), "{events:?}");
}

#[test]
fn a_move_learned_into_a_free_slot() {
    let d = data();
    let party = Party {
        members: vec![member(
            0,
            "SPECIES_BULBASAUR",
            &["MOVE_TACKLE", "MOVE_GROWL", "MOVE_LEECH_SEED"],
        )],
    };
    let mut l = MoveLearning::default();
    let events = read(&mut l, &d, &party, &["BULBASAUR learned VINE WHIP!"]);
    assert_eq!(
        events,
        vec![GameEvent::MoveLearned {
            slot: 0,
            move_slot: 3,
            mv: "MOVE_VINE_WHIP".into(),
            max_pp: 10,
        }]
    );
}

#[test]
fn evolution_text_becomes_an_event() {
    let d = data();
    let mut l = MoveLearning::default();
    let events = read(
        &mut l,
        &d,
        &bulbasaur(),
        &["Congratulations! Your BULBASAUR evolved into IVYSAUR!"],
    );
    assert_eq!(
        events,
        vec![GameEvent::Evolved { slot: 0, species: "SPECIES_IVYSAUR".into() }]
    );
    // Printed names map through the game's spelling.
    let party = Party { members: vec![member(0, "SPECIES_NIDORAN_F", &["MOVE_GROWL"])] };
    let events = read(
        &mut l,
        &d,
        &party,
        &["Congratulations! Your NIDORAN evolved into NIDORINA!"],
    );
    assert_eq!(
        events,
        vec![GameEvent::Evolved { slot: 0, species: "SPECIES_NIDORINA".into() }]
    );
    // An ambiguous reading names no species.
    let events = read(
        &mut l,
        &d,
        &bulbasaur(),
        &["Congratulations! Your BULBASAUR evolved into ???????!"],
    );
    assert!(events.is_empty(), "{events:?}");
}

#[test]
fn a_move_list_without_an_offer_fails() {
    let d = data();
    let mut l = MoveLearning::default();
    match l.on_move_list(&list(&LIST, 0), &d, &bulbasaur(), &vec![]).0 {
        Decision::Fail(r) => assert_eq!(r, "move list open but no move is being offered"),
        other => panic!("{other:?}"),
    }
}

#[test]
fn an_offer_names_the_member_and_the_move() {
    let data = data();
    let party = Party { members: vec![member(0, "SPECIES_BULBASAUR", &["MOVE_TACKLE"])] };
    let l = MoveLearning::default();
    let page = |s: &str| vec![s.to_string()];
    let (who, mv) = l
        .offer_on(&page("BULBASAUR is trying to learn SLEEP POWDER."), &data, &party)
        .unwrap();
    assert_eq!((who.slot, mv.as_str()), (0, "MOVE_SLEEP_POWDER"));
    // Split over two lines.
    let lines = vec!["BULBASAUR is trying to".to_string(), "learn SLEEP POWDER.".to_string()];
    assert!(l.offer_on(&lines, &data, &party).is_some());
    assert!(l.offer_on(&page("PIDGEY is trying to learn GUST."), &data, &party).is_none());
    assert!(l.offer_on(&page("BULBASAUR grew to LV. 15!"), &data, &party).is_none());
}
