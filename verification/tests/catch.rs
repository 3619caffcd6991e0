use pokebot_agent::battle::{decide, BattleMemory, BattlePolicy};
use pokebot_agent::catch::flow::Attempt;
use pokebot_agent::catch::plan::{balls_held, best_ball, catch_question, CatchPlan, Foe};
use pokebot_agent::catch::{
    attempt_question, dismiss_pokedex, identify, identify_question, in_bag, observe, plan_catch,
    plan_catch_wanted, CatchMemory, Thrower,
};
use pokebot_agent::catch_odds::{choices, Choice, FoeStatus, FoeView, Lead, Means, Odds, Outlook};
use pokebot_agent::event::{GameEvent, Pocket, Status};
use pokebot_agent::executor::Decision;
use pokebot_agent::gamedata::{BallData, GameData, ItemData, MoveData, SpeciesData};
use pokebot_agent::observe::{
    BagObservation, BattleMenu, BattleObservation, DialogueKind, DialogueObservation, Observation,
    ScreenState, ShinyReading,
};
use pokebot_agent::party::{Member, Party};
use pokebot_agent::state::{GameState, Knowledge, PartyMon};
use pokebot_agent::stock::SHINY_RESERVE;

fn ball(key: &str, multiplier: u32) -> BallData {
    BallData { key: key.into(), multiplier }
}

fn item(key: &str, name: &str, pocket: &str, price: u32) -> ItemData {
    ItemData { key: key.into(), name: name.into(), pocket: Some(pocket.into()), price }
}

fn mv(key: &str, name: &str, power: u8, pp: u8, effect: &str) -> MoveData {
    MoveData {
        key: key.into(),
        name: name.into(),
        power,
        accuracy: 100,
        pp,
        kind: None,
        effect: Some(effect.into()),
    }
}

fn species(key: &str, name: &str) -> SpeciesData {
    SpeciesData {
        key: key.into(),
        name: name.into(),
        base: [60, 62, 63, 60, 80, 80],
        types: vec![],
        evolutions: vec![],
    }
}

fn data() -> GameData {
    GameData {
        items: vec![
            item("ITEM_POKE_BALL", "POKé BALL", "POCKET_POKE_BALLS", 200),
            item("ITEM_GREAT_BALL", "GREAT BALL", "POCKET_POKE_BALLS", 600),
            item("ITEM_PREMIER_BALL", "PREMIER BALL", "POCKET_POKE_BALLS", 200),
            item("ITEM_MASTER_BALL", "MASTER BALL", "POCKET_POKE_BALLS", 0),
            item("ITEM_POTION", "POTION", "POCKET_ITEMS", 300),
            item("ITEM_TEACHY_TV", "TEACHY TV", "POCKET_KEY_ITEMS", 0),
        ],
        moves: vec![
            mv("MOVE_TACKLE", "TACKLE", 35, 35, "EFFECT_HIT"),
            mv("MOVE_SLEEP_POWDER", "SLEEP POWDER", 0, 15, "EFFECT_SLEEP"),
            mv("MOVE_LEECH_SEED", "LEECH SEED", 0, 10, "EFFECT_LEECH_SEED"),
            mv("MOVE_VINE_WHIP", "VINE WHIP", 35, 10, "EFFECT_HIT"),
        ],
        species: vec![
            species("SPECIES_IVYSAUR", "IVYSAUR"),
            species("SPECIES_BULBASAUR", "BULBASAUR"),
            species("SPECIES_PIDGEY", "PIDGEY"),
            species("SPECIES_SPEAROW", "SPEAROW"),
            species("SPECIES_GEODUDE", "GEODUDE"),
            species("SPECIES_ABRA", "ABRA"),
        ],
        marts: vec![],
        balls: vec![
            ball("ITEM_POKE_BALL", 10),
            ball("ITEM_GREAT_BALL", 15),
            ball("ITEM_PREMIER_BALL", 10),
        ],
    }
}

const MOVES: [&str; 4] =
    ["MOVE_TACKLE", "MOVE_SLEEP_POWDER", "MOVE_LEECH_SEED", "MOVE_VINE_WHIP"];

fn ivysaur() -> Member {
    Member::new("SPECIES_IVYSAUR", 18, MOVES.map(String::from).to_vec())
}

fn with_balls(items: &[(&str, u16)]) -> GameState {
    let mut state = GameState::default();
    state.saved.pockets.push((
        Pocket::PokeBalls,
        Knowledge::observed(items.iter().map(|(i, n)| ((*i).to_owned(), *n)).collect(), 1),
    ));
    state
}

/// The lead's status as read from battle text into the state.
fn paralyzed(state: &GameState) -> GameState {
    let mut state = state.clone();
    let mut mon = PartyMon::default();
    mon.status = Knowledge::observed(Status::Paralyzed, 2);
    state.saved.party = Knowledge::observed(vec![mon], 2);
    state
}

fn foe(species: &str, level: u8) -> Foe {
    Foe {
        species: species.into(),
        level,
        hp_per_mille: 1000,
        status: FoeStatus::Healthy,
        shiny: false,
        caught: Some(false),
    }
}

/// Odds as they are solved: what to do, a good enough chance, too much risk.
fn odds(choice: Choice, likely: bool, risky: bool) -> Odds {
    Odds {
        choice,
        outlook: Outlook {
            likely,
            risky,
            catch: if likely { "0.95".into() } else { "0.10".into() },
            foe_faints: "0.01".into(),
            lead_faints: if risky { "0.0300".into() } else { "0.0010".into() },
            balls: "1.2".into(),
        },
    }
}

fn throw() -> Odds {
    odds(Choice::Throw, true, false)
}

fn sleep() -> Odds {
    odds(Choice::Status(1, "MOVE_SLEEP_POWDER".into()), true, false)
}

#[test]
fn uncaught_weak_foe_is_caught() {
    let data = data();
    let member = ivysaur();
    let lead = Lead { member: &member, hp: (54, 54) };
    let state = with_balls(&[("ITEM_POKE_BALL", 10)]);
    let pidgey = foe("SPECIES_PIDGEY", 6);
    // Five balls above the reserve may be thrown.
    let q = catch_question(&data, &state, &lead, &pidgey, false, false).unwrap();
    assert_eq!(q.balls, 5);
    assert_eq!(q.multiplier, 10);
    let plan = plan_catch(&data, &state, &lead, &pidgey, false, Some(throw())).unwrap();
    assert_eq!(plan.ball, "ITEM_POKE_BALL");
    assert!(!plan.shiny);
    assert_eq!(plan.summary(), throw_summary());
}

fn throw_summary() -> String {
    let member = ivysaur();
    let lead = Lead { member: &member, hp: (54, 54) };
    let state = with_balls(&[("ITEM_POKE_BALL", 10)]);
    plan_catch(&data(), &state, &lead, &foe("SPECIES_PIDGEY", 6), false, Some(throw()))
        .unwrap()
        .summary()
}

#[test]
fn a_plan_in_words() {
    let s = throw_summary();
    assert!(s.contains("throw") && s.contains("0.95") && s.contains("0.0010"), "{s}");
}

#[test]
fn caught_species_is_not_caught_again() {
    let data = data();
    let member = ivysaur();
    let lead = Lead { member: &member, hp: (54, 54) };
    let state = with_balls(&[("ITEM_POKE_BALL", 10)]);
    let mut pidgey = foe("SPECIES_PIDGEY", 6);
    pidgey.caught = Some(true);
    assert!(plan_catch(&data, &state, &lead, &pidgey, false, Some(throw())).is_err());
}

#[test]
fn unknown_caught_flag_declines() {
    let data = data();
    let member = ivysaur();
    let lead = Lead { member: &member, hp: (54, 54) };
    let state = with_balls(&[("ITEM_POKE_BALL", 10)]);
    let mut pidgey = foe("SPECIES_PIDGEY", 6);
    pidgey.caught = None;
    assert!(plan_catch(&data, &state, &lead, &pidgey, false, Some(throw())).is_err());
}

#[test]
fn unknown_ball_count_declines_non_shiny() {
    let data = data();
    let member = ivysaur();
    let lead = Lead { member: &member, hp: (54, 54) };
    let pidgey = foe("SPECIES_PIDGEY", 6);
    assert_eq!(balls_held(&GameState::default()), None);
    assert!(
        plan_catch(&data, &GameState::default(), &lead, &pidgey, false, Some(throw())).is_err()
    );
    // A followed (stale) list, e.g. after a throw, is still a known count.
    let mut state = with_balls(&[("ITEM_POKE_BALL", 10)]);
    state.saved.pockets[0].1 = Knowledge::followed(vec![("ITEM_POKE_BALL".into(), 9)], Some(2));
    assert_eq!(balls_held(&state), Some(vec![("ITEM_POKE_BALL".into(), 9)]));
    assert!(plan_catch(&data, &state, &lead, &pidgey, false, Some(throw())).is_ok());
}

#[test]
fn no_catch_at_or_below_the_reserve() {
    let data = data();
    let member = ivysaur();
    let lead = Lead { member: &member, hp: (54, 54) };
    let pidgey = foe("SPECIES_PIDGEY", 6);
    // 5 balls: all of them the shiny reserve.
    let state = with_balls(&[("ITEM_POKE_BALL", 5)]);
    let err = plan_catch(&data, &state, &lead, &pidgey, false, Some(throw())).unwrap_err();
    assert!(err.contains("reserve"), "{err}");
    // 6: one ball to throw, and the odds with it decide.
    let state = with_balls(&[("ITEM_POKE_BALL", 6)]);
    let q = catch_question(&data, &state, &lead, &pidgey, false, false).unwrap();
    assert_eq!(q.balls, 1);
    assert!(plan_catch(&data, &state, &lead, &pidgey, false, Some(throw())).is_ok());
    let unlikely = odds(Choice::Throw, false, false);
    let err = plan_catch(&data, &state, &lead, &pidgey, false, Some(unlikely)).unwrap_err();
    assert!(err.contains("below 0.2"), "{err}");
}

#[test]
fn shiny_uses_the_reserve() {
    let data = data();
    let member = ivysaur();
    let lead = Lead { member: &member, hp: (54, 54) };
    let mut pidgey = foe("SPECIES_PIDGEY", 6);
    pidgey.shiny = true;
    pidgey.caught = Some(true);
    let state = with_balls(&[("ITEM_POKE_BALL", 3)]);
    let plan = plan_catch(&data, &state, &lead, &pidgey, false, Some(throw())).unwrap();
    assert_eq!(plan.ball, "ITEM_POKE_BALL");
    assert!(plan.shiny);
    // Unknown pocket: still Ok, planned with a Poké Ball.
    let plan =
        plan_catch(&data, &GameState::default(), &lead, &pidgey, false, Some(throw())).unwrap();
    assert_eq!(plan.ball, "ITEM_POKE_BALL");
    let q = catch_question(&data, &GameState::default(), &lead, &pidgey, false, false).unwrap();
    assert!(q.balls >= 1);
    // No ball at all (only a Master Ball): Err even for a shiny.
    let state = with_balls(&[("ITEM_MASTER_BALL", 1)]);
    assert!(plan_catch(&data, &state, &lead, &pidgey, false, Some(throw())).is_err());
}

#[test]
fn risky_foe_is_not_caught() {
    let data = data();
    let member = ivysaur();
    let lead = Lead { member: &member, hp: (3, 54) };
    let state = with_balls(&[("ITEM_POKE_BALL", 20)]);
    let geodude = foe("SPECIES_GEODUDE", 9);
    let risky = || Some(odds(Choice::Throw, true, true));
    let err = plan_catch(&data, &state, &lead, &geodude, false, risky()).unwrap_err();
    // At 3/54 the lead is too weak to try at all.
    assert!(err.contains("below 75 %"), "{err}");
    // Fit enough to try, the risk decides.
    let fit = Lead { member: &member, hp: (54, 54) };
    let err = plan_catch(&data, &state, &fit, &geodude, false, risky()).unwrap_err();
    assert!(err.starts_with("risk 0.0300 above 0.02"), "{err}");
    // A shiny is still attempted, throwing at once.
    let shiny = Foe { shiny: true, ..geodude };
    let plan = plan_catch(&data, &state, &lead, &shiny, false, risky()).unwrap();
    assert!(plan.shiny);
}

/// The species a hunt is after is the goal: the reserve, a worn lead,
/// an unread caught icon or pocket and a low chance don't let it go;
/// only the lead's risk does (then the hunt runs, heals and comes
/// back).
#[test]
fn the_hunted_species_is_declined_only_for_the_leads_risk() {
    let data = data();
    let member = ivysaur();
    let wanted = |state: &GameState, hp: u16, foe: &Foe, o: Odds| {
        let lead = Lead { member: &member, hp: (hp, 60) };
        plan_catch_wanted(&data, state, &lead, foe, false, true, Some(o))
    };
    let pidgey = foe("SPECIES_PIDGEY", 6);
    // 5 balls, all the shiny reserve: thrown for the hunted species.
    let reserve = with_balls(&[("ITEM_POKE_BALL", 5)]);
    let plan = wanted(&reserve, 60, &pidgey, throw()).unwrap();
    assert!(plan.wanted && !plan.shiny);
    // A worn or paralyzed lead, still safe against it.
    assert!(wanted(&reserve, 30, &pidgey, throw()).is_ok());
    assert!(wanted(&paralyzed(&reserve), 60, &pidgey, throw()).is_ok());
    // An unread caught icon, an unread pocket.
    let unread = Foe { caught: None, ..pidgey.clone() };
    assert!(wanted(&reserve, 60, &unread, throw()).is_ok());
    assert!(wanted(&GameState::default(), 60, &pidgey, throw()).is_ok());
    // One ball: a low chance still beats running from it.
    let one = with_balls(&[("ITEM_POKE_BALL", 1)]);
    let abra = foe("SPECIES_ABRA", 12);
    assert!(wanted(&one, 60, &abra, odds(Choice::Throw, false, false)).is_ok());
    // Declined: caught already, no ball, or the lead at risk.
    let caught = Foe { caught: Some(true), ..pidgey.clone() };
    assert!(wanted(&reserve, 60, &caught, throw()).is_err());
    let none = with_balls(&[("ITEM_POKE_BALL", 0)]);
    assert!(wanted(&none, 60, &pidgey, throw()).is_err());
    let geodude = foe("SPECIES_GEODUDE", 9);
    let err = wanted(&reserve, 3, &geodude, odds(Choice::Run, false, true)).unwrap_err();
    assert!(err.contains("risk"), "{err}");
    // The same encounters as extras are still declined.
    let lead = Lead { member: &member, hp: (60, 60) };
    assert!(plan_catch(&data, &reserve, &lead, &pidgey, false, Some(throw())).is_err());
}

/// A non-shiny catch starts only with the lead at 75 % HP or more and no major
/// status.
#[test]
fn a_weak_or_statused_lead_does_not_try_a_catch() {
    let data = data();
    let member = ivysaur();
    let pidgey = foe("SPECIES_PIDGEY", 6);
    let state = with_balls(&[("ITEM_POKE_BALL", 20)]);
    let at = |hp| Lead { member: &member, hp: (hp, 60) };
    assert!(plan_catch(&data, &state, &at(45), &pidgey, false, Some(throw())).is_ok());
    let err = plan_catch(&data, &state, &at(44), &pidgey, false, Some(throw())).unwrap_err();
    assert!(err.contains("below 75 %"), "{err}");
    // Paralyzed (read from battle text into the state).
    let hurt = paralyzed(&state);
    let err = plan_catch(&data, &hurt, &at(60), &pidgey, false, Some(throw())).unwrap_err();
    assert!(err.contains("Paralyzed"), "{err}");
    // A shiny is still tried.
    let shiny = Foe { shiny: true, ..pidgey };
    assert!(plan_catch(&data, &hurt, &at(20), &shiny, false, Some(throw())).is_ok());
}

#[test]
fn trainer_mons_are_never_caught() {
    let data = data();
    let member = ivysaur();
    let lead = Lead { member: &member, hp: (54, 54) };
    let state = with_balls(&[("ITEM_POKE_BALL", 10)]);
    let mut pidgey = foe("SPECIES_PIDGEY", 6);
    assert!(plan_catch(&data, &state, &lead, &pidgey, true, Some(throw())).is_err());
    pidgey.shiny = true;
    assert!(plan_catch(&data, &state, &lead, &pidgey, true, Some(throw())).is_err());
}

#[test]
fn asleep_foe_gets_no_status_move() {
    let data = data();
    let member = ivysaur();
    let lead = Lead { member: &member, hp: (54, 54) };
    let means = Means { ball: 10, balls: 5, status_allowed: true, disabled: None };
    let view = |status| FoeView {
        species: "SPECIES_PIDGEY",
        level: 6,
        hp_per_mille: 1000,
        status,
        asleep_for: 0,
    };
    let has_status = |lead: &Lead, status| {
        choices(&data, lead, &view(status), &means)
            .iter()
            .any(|c| matches!(c, Choice::Status(..)))
    };
    assert!(has_status(&lead, FoeStatus::Healthy));
    assert!(!has_status(&lead, FoeStatus::Asleep));
    // Without PP left, no status move either.
    let mut tired = member.clone();
    tired.pp_used.push(("MOVE_SLEEP_POWDER".into(), 15));
    let lead = Lead { member: &tired, hp: (54, 54) };
    assert!(!has_status(&lead, FoeStatus::Healthy));
}

#[test]
fn best_ball_prefers_multiplier_then_price() {
    let data = data();
    let held = |v: &[(&str, u16)]| -> Vec<(String, u16)> {
        v.iter().map(|(i, n)| ((*i).to_owned(), *n)).collect()
    };
    assert_eq!(
        best_ball(&data, &held(&[("ITEM_POKE_BALL", 5), ("ITEM_GREAT_BALL", 1)])),
        Some("ITEM_GREAT_BALL".into())
    );
    // Premier and Poké Ball both cost ¥200: the cheaper, then the name.
    assert_eq!(
        best_ball(&data, &held(&[("ITEM_PREMIER_BALL", 1), ("ITEM_POKE_BALL", 1)])),
        Some("ITEM_POKE_BALL".into())
    );
    assert_eq!(best_ball(&data, &held(&[("ITEM_MASTER_BALL", 1)])), None);
    assert_eq!(best_ball(&data, &held(&[("ITEM_POKE_BALL", 0)])), None);
    // A ball that is not among the items is thrown all the same, as the dearest.
    let mut unpriced = data.clone();
    unpriced.items.clear();
    assert_eq!(
        best_ball(&unpriced, &held(&[("ITEM_POKE_BALL", 4)])),
        Some("ITEM_POKE_BALL".into())
    );
    unpriced.items = data.items.into_iter().filter(|i| i.key == "ITEM_PREMIER_BALL").collect();
    assert_eq!(
        best_ball(&unpriced, &held(&[("ITEM_POKE_BALL", 4), ("ITEM_PREMIER_BALL", 1)])),
        Some("ITEM_PREMIER_BALL".into())
    );
}

/// A wild battle frame: IVYSAUR Lv18 54/54 against PIDGEY Lv6.
fn wild(frame: u64, menu: BattleMenu, foe_hp: u16) -> Observation {
    wild_as(frame, menu, foe_hp, "PIDGEY", 6)
}

fn wild_as(frame: u64, menu: BattleMenu, foe_hp: u16, name: &str, level: u8) -> Observation {
    let mut o = Observation::bare(
        frame,
        match menu {
            BattleMenu::Command { .. } => ScreenState::BattleCommand,
            BattleMenu::Moves { .. } => ScreenState::BattleMoveSelection,
        },
    );
    o.battle = Some(BattleObservation {
        menu: Some(menu),
        player_name: Some("IVYSAUR".into()),
        player_level: Some(18),
        player_hp_numbers: Some((54, 54)),
        opponent_name: Some(name.into()),
        opponent_level: Some(level),
        player_hp: Some(1000),
        opponent_hp: Some(foe_hp),
        move_pp: None,
        move_names: Vec::new(),
        opponent_caught: Some(false),
        opponent_shiny: match menu {
            BattleMenu::Command { .. } => Some(ShinyReading::Normal),
            BattleMenu::Moves { .. } => None,
        },
    });
    o
}

const COMMAND: BattleMenu = BattleMenu::Command { column: 0, row: 0 };

fn told(d: Option<Decision>) -> String {
    match d {
        Some(Decision::Act(a)) => a.label,
        Some(Decision::Wait(r)) => format!("wait: {r}"),
        Some(Decision::Done(r)) => format!("done: {r}"),
        Some(Decision::Fail(r)) => format!("fail: {r}"),
        None => "none".into(),
    }
}

/// The decision on the second of two agreeing frames, by these odds.
fn decide_on(
    data: &GameData,
    party: &Party,
    memory: &mut BattleMemory,
    o: &Observation,
    odds: &Odds,
) -> String {
    let policy = BattlePolicy::default();
    let mut events = Vec::new();
    let mut next = o.clone();
    next.frame_id += 1;
    let given = || Some(odds.clone());
    decide(o, &policy, memory, party, data, None, given(), &mut events);
    told(decide(&next, &policy, memory, party, data, None, given(), &mut events))
}

/// Identifies the opponent on two agreeing command-menu frames.
fn identified(
    data: &GameData,
    state: &GameState,
    party: &Party,
    memory: &mut BattleMemory,
    odds: &Odds,
) -> Vec<GameEvent> {
    let mut events = Vec::new();
    for f in [1, 2] {
        identify(
            &wild(f, COMMAND, 1000),
            data,
            state,
            party,
            memory,
            Some(odds.clone()),
            &mut events,
        );
    }
    events
}

#[test]
fn a_catch_sleeps_weakens_then_throws() {
    let data = data();
    let party = Party { members: vec![ivysaur()] };
    let state = with_balls(&[("ITEM_POKE_BALL", 10)]);
    let mut memory = BattleMemory::default();
    let mut events = Vec::new();
    let moves = BattleMenu::Moves { column: 0, row: 0 };
    // Nothing is chosen before the opponent is identified.
    assert_eq!(
        decide_on(&data, &party, &mut memory, &wild(1, COMMAND, 1000), &sleep()),
        "wait: identifying the wild opponent"
    );
    // Identified on two agreeing command-menu frames.
    assert!(identify_question(&wild(1, COMMAND, 1000), &data, &state, &party, &memory).is_none());
    identify(
        &wild(1, COMMAND, 1000),
        &data,
        &state,
        &party,
        &mut memory,
        None,
        &mut events,
    );
    assert!(!memory.catch.decided);
    // Now the odds are wanted, for the opponent that was read.
    let q =
        identify_question(&wild(2, COMMAND, 1000), &data, &state, &party, &memory).unwrap();
    assert_eq!((q.species.as_str(), q.level, q.hp_per_mille), ("SPECIES_PIDGEY", 6, 1000));
    assert_eq!((q.hp, q.balls, q.status_allowed), ((54, 54), 5, true));
    identify(
        &wild(2, COMMAND, 1000),
        &data,
        &state,
        &party,
        &mut memory,
        Some(sleep()),
        &mut events,
    );
    assert!(memory.catch.decided);
    assert_eq!(
        events.first(),
        Some(&GameEvent::SpeciesSeen { species: "SPECIES_PIDGEY".into() })
    );
    assert!(memory.catch.attempt.is_some(), "{events:?}");
    // The first action is the plan's: a move through FIGHT, or BAG.
    let label = decide_on(&data, &party, &mut memory, &wild(3, COMMAND, 1000), &sleep());
    assert_eq!(label, "choose FIGHT");
    let label = decide_on(&data, &party, &mut memory, &wild(5, moves, 1000), &sleep());
    assert!(label.contains("SLEEP_POWDER"), "{label}");
    // Asleep at full HP: IVYSAUR Lv18's attacks would likely faint a
    // Lv6 PIDGEY (20 HP): throw.
    let attempt = memory.catch.attempt.as_mut().unwrap();
    attempt.opened = true;
    attempt.foe_status = FoeStatus::Asleep;
    let label = decide_on(&data, &party, &mut memory, &wild(7, COMMAND, 1000), &throw());
    assert!(label.contains("BAG"), "{label}");
    // Weakened (200‰): BAG.
    let label = decide_on(&data, &party, &mut memory, &wild(9, COMMAND, 200), &throw());
    assert!(label.contains("BAG"), "{label}");
    assert_eq!(label, "cursor to BAG: Right");
    // On BAG itself: A opens the bag, and a throw begins.
    let label = decide_on(
        &data,
        &party,
        &mut memory,
        &wild(11, BattleMenu::Command { column: 1, row: 0 }, 200),
        &throw(),
    );
    assert_eq!(label, "choose BAG");
    assert!(memory.catch.thrower.is_some());
}

fn battle_text(lines: &[&str]) -> DialogueObservation {
    DialogueObservation {
        kind: DialogueKind::BattleText,
        waiting_for_input: false,
        ready_for_a: false,
        text_cells: vec![1; 4],
        lines: lines.iter().map(|l| (*l).to_owned()).collect(),
    }
}

/// The moves menu goes to the odds' move; the status move counts as
/// used once chosen; a sleeping foe at a low bar is thrown at.
#[test]
fn the_odds_choice_is_played_on_the_moves_menu() {
    let data = data();
    // BULBASAUR Lv12 against a Lv6 PIDGEY (20 HP).
    let member = Member::new("SPECIES_BULBASAUR", 12, MOVES.map(String::from).to_vec());
    let party = Party { members: vec![member] };
    let state = with_balls(&[("ITEM_POKE_BALL", 10)]);
    let mut memory = BattleMemory::default();
    let moves = BattleMenu::Moves { column: 0, row: 0 };
    identified(&data, &state, &party, &mut memory, &sleep());
    let plan = memory.catch.attempt.as_ref().expect("an attempt").plan.clone();
    let (slot, mv) = match plan.odds.choice.clone() {
        Choice::Status(slot, mv) | Choice::Attack(slot, mv) => (slot, mv),
        _ => panic!("expected a move first: {plan:?}"),
    };
    let label = decide_on(&data, &party, &mut memory, &wild(3, moves, 1000), &sleep());
    assert!(label.contains(mv.trim_start_matches("MOVE_")), "{label}");
    // Moving the cursor is not using it; on the move, A chooses it.
    memory.catch.on_move_confirmed();
    assert!(!memory.catch.attempt.as_ref().unwrap().opened);
    let on_it = BattleMenu::Moves { column: slot % 2, row: slot / 2 };
    let label = decide_on(&data, &party, &mut memory, &wild(3, on_it, 1000), &sleep());
    assert_eq!(
        label,
        format!("choose move {} ({})", slot + 1, mv.trim_start_matches("MOVE_"))
    );
    memory.catch.on_move_confirmed();
    let is_status = matches!(plan.odds.choice, Choice::Status(..));
    assert_eq!(memory.catch.attempt.as_ref().unwrap().opened, is_status);
    // "Wild PIDGEY fell asleep!" on two frames.
    let mut text = wild(5, COMMAND, 1000);
    text.battle.as_mut().unwrap().menu = None;
    text.dialogue = Some(battle_text(&["Wild PIDGEY", "fell asleep!"]));
    memory.catch.observe(&text, "PIDGEY", None);
    text.frame_id = 6;
    memory.catch.observe(&text, "PIDGEY", None);
    assert_eq!(memory.catch.attempt.as_ref().unwrap().foe_status, FoeStatus::Asleep);
    // The next turn's odds are asked for what is known now: under DISABLE the
    // refused move is named, and no status move may be used any more.
    memory.disabled = Some("MOVE_VINE_WHIP".into());
    let policy = BattlePolicy::default();
    let mut events = Vec::new();
    decide(&wild(10, moves, 1000), &policy, &mut memory, &party, &data, None, None, &mut events);
    let q = attempt_question(&wild(11, moves, 1000), &policy, &memory, &party, &data).unwrap();
    assert_eq!(q.disabled.as_deref(), Some("MOVE_VINE_WHIP"));
    assert_eq!((q.status, q.status_allowed), (FoeStatus::Asleep, false));
    memory.disabled = None;
    // Asleep and weakened (200‰): BAG.
    let label = decide_on(&data, &party, &mut memory, &wild(12, COMMAND, 200), &throw());
    assert_eq!(label, "cursor to BAG: Right");
}

fn bag_frame(
    frame: u64,
    pocket: &str,
    rows: &[(&str, Option<u16>)],
    cursor: Option<u8>,
    prompt: Option<u8>,
) -> Observation {
    let mut o = Observation::bare(
        frame,
        if prompt.is_some() { ScreenState::BattleBag } else { ScreenState::Bag },
    );
    o.bag = Some(BagObservation {
        pocket: pocket.into(),
        rows: rows.iter().map(|(n, c)| ((*n).to_owned(), *c)).collect(),
        cursor,
        prompt: prompt.map(|row| (vec!["USE".into(), "CANCEL".into()], row)),
    });
    o
}

fn step(t: &mut Thrower, data: &GameData, o: &Observation, events: &mut Vec<GameEvent>) -> String {
    told(Some(t.next(o, data, "ITEM_POKE_BALL", events)))
}

#[test]
fn a_throw_goes_through_the_remembered_pocket_and_row() {
    let data = data();
    let mut t = Thrower::new();
    let mut events = Vec::new();
    // The bag remembers the last pocket: ITEMS → Right → KEY ITEMS → Right.
    let items = [("POTION", Some(1)), ("CANCEL", None)];
    assert_eq!(
        step(&mut t, &data, &bag_frame(1, "ITEMS", &items, Some(0), None), &mut events),
        "battle bag: Right to KEY ITEMS"
    );
    let keys = [("TEACHY TV", None), ("CANCEL", None)];
    assert_eq!(
        step(&mut t, &data, &bag_frame(2, "KEY ITEMS", &keys, Some(0), None), &mut events),
        "battle bag: Right to POKé BALLS"
    );
    // ...and row: ▶ on CANCEL. Rows count once two frames agree.
    let balls = [("POKé BALL", Some(8)), ("CANCEL", None)];
    let on_cancel = |f| bag_frame(f, "POKé BALLS", &balls, Some(1), None);
    assert!(step(&mut t, &data, &on_cancel(3), &mut events).starts_with("wait"));
    assert!(events.is_empty());
    assert_eq!(
        step(&mut t, &data, &on_cancel(4), &mut events),
        "battle bag: Up toward POKE_BALL"
    );
    assert_eq!(
        events,
        vec![GameEvent::PocketObserved {
            pocket: Pocket::PokeBalls,
            items: vec![("ITEM_POKE_BALL".into(), 8)],
        }]
    );
    let on_ball = |f| bag_frame(f, "POKé BALLS", &balls, Some(0), None);
    assert!(step(&mut t, &data, &on_ball(5), &mut events).starts_with("wait"));
    assert_eq!(step(&mut t, &data, &on_ball(6), &mut events), "throw POKE_BALL: select it");
    // Read once per throw.
    assert_eq!(events.len(), 1);
    // USE / CANCEL, ▶ on USE.
    let prompt = bag_frame(7, "POKé BALLS", &balls, None, Some(0));
    assert_eq!(step(&mut t, &data, &prompt, &mut events), "throw POKE_BALL: USE");
    assert!(!t.used());
    // The bag closes: the ball is on its way.
    let gone = Observation::bare(8, prompt.screen);
    assert_eq!(step(&mut t, &data, &gone, &mut events), "wait: the ball is thrown");
    assert!(t.used());
}

#[test]
fn the_best_ball_is_picked_from_the_rows() {
    let data = data();
    let mut t = Thrower::new();
    let mut events = Vec::new();
    let balls = [("POKé BALL", Some(8)), ("GREAT BALL", Some(2)), ("CANCEL", None)];
    let at = |f, row| bag_frame(f, "POKé BALLS", &balls, Some(row), None);
    step(&mut t, &data, &at(1, 0), &mut events);
    assert_eq!(
        step(&mut t, &data, &at(2, 0), &mut events),
        "battle bag: Down toward GREAT_BALL"
    );
    step(&mut t, &data, &at(3, 1), &mut events);
    assert_eq!(
        step(&mut t, &data, &at(4, 1), &mut events),
        "throw GREAT_BALL (instead of POKE_BALL): select it"
    );
}

#[test]
fn a_misread_count_is_not_a_reading() {
    let data = data();
    let mut t = Thrower::new();
    let mut events = Vec::new();
    let read = |f, n| {
        bag_frame(
            f,
            "POKé BALLS",
            &[("POKé BALL", Some(n)), ("CANCEL", None)],
            Some(0),
            None,
        )
    };
    step(&mut t, &data, &read(1, 8), &mut events);
    assert!(step(&mut t, &data, &read(2, 3), &mut events).starts_with("wait"));
    assert!(events.is_empty());
    assert_eq!(step(&mut t, &data, &read(3, 3), &mut events), "throw POKE_BALL: select it");
    assert_eq!(
        events,
        vec![GameEvent::PocketObserved {
            pocket: Pocket::PokeBalls,
            items: vec![("ITEM_POKE_BALL".into(), 3)],
        }]
    );
}

fn attempt(odds: Odds, shiny: bool, wanted: bool, balls: u16) -> Attempt {
    Attempt {
        plan: CatchPlan { ball: "ITEM_POKE_BALL".into(), odds, shiny, wanted },
        opened: true,
        throws: 0,
        foe_status: FoeStatus::Healthy,
        balls: Some(balls),
        asleep_turns: 0,
    }
}

fn acted(d: Decision) -> String {
    match d {
        Decision::Act(a) => a.label,
        other => panic!("{other:?}"),
    }
}

#[test]
fn no_usable_ball_gives_the_throw_up() {
    let data = data();
    let mut memory =
        CatchMemory { thrower: Some(Thrower::new()), ..CatchMemory::default() };
    memory.attempt = Some(attempt(throw(), false, false, 10));
    let mut events = Vec::new();
    let empty = |f| bag_frame(f, "POKé BALLS", &[("CANCEL", None)], Some(0), None);
    assert!(matches!(in_bag(&empty(1), &data, &mut memory, &mut events), Decision::Wait(_)));
    let close = acted(in_bag(&empty(2), &data, &mut memory, &mut events));
    assert_eq!(close, "battle bag: B to give up the throw");
    let gone = Observation::bare(3, empty(3).screen);
    assert!(matches!(in_bag(&gone, &data, &mut memory, &mut events), Decision::Wait(_)));
    assert!(memory.thrower.is_none());
    assert!(memory.attempt.is_none());
    assert!(events.iter().any(|e| matches!(
        e,
        GameEvent::GoalProgress { phase, detail, .. }
            if phase == "Catch" && detail.contains("abandoned")
    )));
}

#[test]
fn stuck_bag_is_given_up_after_the_retries() {
    let data = data();
    let mut t = Thrower::new();
    let mut events = Vec::new();
    // An unreadable pocket title, forever.
    let mut label = String::new();
    for f in 0..2000 {
        label = step(&mut t, &data, &bag_frame(f, "", &[], None, None), &mut events);
        if !label.starts_with("wait") {
            break;
        }
    }
    assert_eq!(label, "battle bag: B to give up the throw");
    assert!(t.gave_up().is_some());
}

fn page(f: u64, lines: &[&str]) -> Observation {
    let mut o = Observation::bare(f, ScreenState::BattleText);
    o.dialogue = Some(battle_text(lines));
    o
}

#[test]
fn battle_text_is_read_on_two_frames_and_once() {
    let mut memory = CatchMemory {
        foe: Some(("SPECIES_PIDGEY".into(), 6)),
        attempt: Some(attempt(throw(), false, false, 10)),
        ..CatchMemory::default()
    };
    let mut see = |o: Observation, placed: Option<u8>| {
        memory.observe(&o, "PIDGEY", placed);
        (
            memory.caught.clone(),
            memory.attempt.as_ref().map(|a| a.throws),
            memory.box_index,
        )
    };
    // One frame of a misread "Gotcha!" is not a catch.
    see(page(1, &["Gotcha!", "PIDGEY was caught!"]), None);
    assert_eq!(see(page(2, &["Shoot!", "It was so close, too!"]), None).0, None);
    see(page(3, &["Shoot!", "It was so close, too!"]), None);
    assert_eq!(see(page(4, &["Shoot!", "It was so close, too!"]), None).1, Some(1));
    see(page(5, &["Gotcha!", "PIDGEY was caught!"]), None);
    assert_eq!(
        see(page(6, &["Gotcha!", "PIDGEY was caught!"]), None).0.as_deref(),
        Some("SPECIES_PIDGEY")
    );
    // Full party: the PC pages.
    see(page(7, &["PIDGEY was transferred to", "someone's PC."]), None);
    see(page(8, &["PIDGEY was transferred to", "someone's PC."]), None);
    assert_eq!(see(page(9, &["It was placed in", "BOX “BOX2.”"]), Some(1)).2, None);
    assert_eq!(see(page(10, &["It was placed in", "BOX “BOX2.”"]), Some(1)).2, Some(1));
}

#[test]
fn the_nickname_question_proves_a_catch() {
    let mut memory =
        CatchMemory { foe: Some(("SPECIES_PIDGEY".into(), 6)), ..CatchMemory::default() };
    for f in [1, 2] {
        memory.observe(&page(f, &["Give a nickname to the", "captured PIDGEY?"]), "PIDGEY", None);
    }
    assert_eq!(memory.caught.as_deref(), Some("SPECIES_PIDGEY"));
}

#[test]
fn rising_risk_abandons_the_attempt_for_run() {
    let data = data();
    let party = Party { members: vec![ivysaur()] };
    let state = with_balls(&[("ITEM_POKE_BALL", 10)]);
    let mut memory = BattleMemory::default();
    identified(&data, &state, &party, &mut memory, &throw());
    assert!(memory.catch.attempt.is_some());
    // Our HP fell to 2/54: the rest of the attempt is too risky.
    let mut low = wild(3, COMMAND, 1000);
    let b = low.battle.as_mut().unwrap();
    b.player_hp_numbers = Some((2, 54));
    b.player_hp = Some(37);
    let risky = odds(Choice::Throw, true, true);
    assert_eq!(decide_on(&data, &party, &mut memory, &low, &risky), "cursor to RUN: Down");
    assert!(memory.catch.attempt.is_none());
    assert!(memory.catch.flee);
    // Even above the low-HP line, the battle keeps running away.
    let mut mid = wild(5, COMMAND, 1000);
    let b = mid.battle.as_mut().unwrap();
    b.player_hp_numbers = Some((40, 54));
    b.player_hp = Some(740);
    assert_eq!(decide_on(&data, &party, &mut memory, &mid, &risky), "cursor to RUN: Down");
}

/// Once the followed count is at the reserve the attempt is abandoned for RUN.
#[test]
fn a_non_shiny_attempt_stops_at_the_shiny_reserve() {
    let data = data();
    let party = Party { members: vec![ivysaur()] };
    let state = with_balls(&[("ITEM_POKE_BALL", 10)]);
    let mut memory = BattleMemory::default();
    identified(&data, &state, &party, &mut memory, &throw());
    let attempt = memory.catch.attempt.as_mut().expect("an attempt");
    assert_eq!(attempt.balls, Some(10));
    attempt.balls = Some(SHINY_RESERVE + 1);
    attempt.opened = true;
    // One more ball broke free: only the reserve is left.
    let mut text = wild(3, COMMAND, 200);
    text.battle.as_mut().unwrap().menu = None;
    text.dialogue = Some(battle_text(&["Oh, no!", "The POKéMON broke free!"]));
    memory.catch.observe(&text, "PIDGEY", None);
    text.frame_id = 4;
    memory.catch.observe(&text, "PIDGEY", None);
    assert_eq!(memory.catch.attempt.as_ref().and_then(|a| a.balls), Some(SHINY_RESERVE));
    assert_eq!(
        decide_on(&data, &party, &mut memory, &wild(5, COMMAND, 200), &throw()),
        "cursor to RUN: Down"
    );
    assert!(memory.catch.attempt.is_none());
    assert!(memory.catch.flee);
}

/// The battle bag's own count (read before each throw) also stops a
/// non-shiny attempt at the reserve; a shiny throws it.
#[test]
fn the_bag_count_at_the_reserve_gives_a_non_shiny_throw_up() {
    let data = data();
    let memory_for = |shiny: bool| CatchMemory {
        thrower: Some(Thrower::new().keeping_reserve(!shiny)),
        // The followed count said 8 (stale).
        attempt: Some(attempt(throw(), shiny, false, 8)),
        ..CatchMemory::default()
    };
    let balls = [("POKé BALL", Some(SHINY_RESERVE)), ("CANCEL", None)];
    let list = |f| bag_frame(f, "POKé BALLS", &balls, Some(0), None);
    let mut events = Vec::new();
    let mut memory = memory_for(false);
    in_bag(&list(1), &data, &mut memory, &mut events);
    let close = acted(in_bag(&list(2), &data, &mut memory, &mut events));
    assert_eq!(close, "battle bag: B to give up the throw");
    assert_eq!(memory.attempt.as_ref().and_then(|a| a.balls), Some(SHINY_RESERVE));
    let gone = Observation::bare(3, list(3).screen);
    in_bag(&gone, &data, &mut memory, &mut events);
    assert!(memory.attempt.is_none());
    assert!(memory.flee);
    // A shiny throws one of the reserve.
    let mut memory = memory_for(true);
    in_bag(&list(1), &data, &mut memory, &mut events);
    let select = acted(in_bag(&list(2), &data, &mut memory, &mut events));
    assert_eq!(select, "throw POKE_BALL: select it");
    assert!(!memory.flee);
}

/// A bag opened while the attempt throws is thrown from; any other is still
/// closed.
#[test]
fn a_bag_opened_while_the_attempt_throws_is_thrown_from() {
    let data = data();
    let memory_for = |choice: Choice| CatchMemory {
        attempt: Some(attempt(odds(choice, true, false), false, true, 20)),
        ..CatchMemory::default()
    };
    let balls = [("POKé BALL", Some(20)), ("CANCEL", None)];
    let list = |f| bag_frame(f, "POKé BALLS", &balls, Some(0), None);
    let mut events = Vec::new();
    let mut memory = memory_for(Choice::Throw);
    in_bag(&list(1), &data, &mut memory, &mut events);
    let select = acted(in_bag(&list(2), &data, &mut memory, &mut events));
    assert_eq!(select, "throw POKE_BALL: select it");
    // The attempt's turn is a move, or no attempt: not ours to use.
    for mut memory in [memory_for(Choice::Run), CatchMemory::default()] {
        let close = acted(in_bag(&list(1), &data, &mut memory, &mut events));
        assert_eq!(close, "close an unexpected battle bag");
    }
}

#[test]
fn a_risky_shiny_is_thrown_at_not_run_from() {
    let data = data();
    let party = Party { members: vec![ivysaur()] };
    // Below the reserve: a shiny is still caught.
    let state = with_balls(&[("ITEM_POKE_BALL", 3)]);
    let mut memory = BattleMemory::default();
    let mut events = Vec::new();
    let shiny = |f, hp: (u16, u16)| {
        let mut o = wild_as(f, COMMAND, 1000, "SPEAROW", 9);
        let b = o.battle.as_mut().unwrap();
        b.opponent_shiny = Some(ShinyReading::Shiny);
        b.player_hp_numbers = Some(hp);
        b.player_hp = Some((u32::from(hp.0) * 1000 / u32::from(hp.1)) as u16);
        o
    };
    for f in [1, 2] {
        identify(
            &shiny(f, (54, 54)),
            &data,
            &state,
            &party,
            &mut memory,
            Some(throw()),
            &mut events,
        );
    }
    assert!(events.contains(&GameEvent::ShinySeen { species: "SPECIES_SPEAROW".into() }));
    assert!(memory.catch.attempt.as_ref().is_some_and(|a| a.plan.shiny));
    // HP 40/54 (above the flee line): the rest of the attempt is over
    // the risk limit, yet a shiny is never run from: the odds' best
    // action (a throw or a move) instead, a throw where they say RUN.
    for risky in [odds(Choice::Throw, true, true), odds(Choice::Run, false, true)] {
        let label = decide_on(&data, &party, &mut memory, &shiny(3, (40, 54)), &risky);
        assert!(label == "cursor to BAG: Right" || label == "choose FIGHT", "{label}");
        assert!(memory.catch.attempt.is_some());
        assert!(!memory.catch.flee);
    }
    // Below the flee line, the low-HP rule may still RUN.
    assert_eq!(
        decide_on(&data, &party, &mut memory, &shiny(5, (5, 54)), &throw()),
        "cursor to RUN: Down"
    );
    assert!(memory.catch.attempt.is_some());
}

#[test]
fn an_unreadable_hud_abandons_the_attempt() {
    let data = data();
    let party = Party { members: vec![ivysaur()] };
    let state = with_balls(&[("ITEM_POKE_BALL", 10)]);
    let mut memory = BattleMemory::default();
    let mut events = identified(&data, &state, &party, &mut memory, &throw());
    let policy = BattlePolicy::default();
    let mut last = String::new();
    for f in 3..400 {
        // Our HP digits flicker between two readings every frame.
        let mut o = wild(f, COMMAND, 1000);
        o.battle.as_mut().unwrap().player_hp_numbers = Some((54 - (f % 2) as u16 * 10, 54));
        assert!(attempt_question(&o, &policy, &memory, &party, &data).is_none());
        last = match decide(&o, &policy, &mut memory, &party, &data, None, None, &mut events) {
            Some(Decision::Act(a)) => a.label,
            Some(Decision::Wait(r)) => format!("wait: {r}"),
            other => panic!("{:?}", other.is_some()),
        };
        if memory.catch.attempt.is_none() {
            break;
        }
        assert_eq!(last, "wait: confirming the HUD on a later frame");
    }
    assert!(memory.catch.attempt.is_none());
    assert_eq!(last, "choose FIGHT");
}

#[test]
fn a_blocked_ball_means_a_trainer_battle() {
    let data = data();
    let party = Party { members: vec![ivysaur()] };
    let state = with_balls(&[("ITEM_POKE_BALL", 10)]);
    let mut memory = BattleMemory::default();
    identified(&data, &state, &party, &mut memory, &throw());
    assert!(memory.catch.attempt.is_some());
    let mut text = wild(3, COMMAND, 1000);
    text.battle.as_mut().unwrap().menu = None;
    text.dialogue = Some(battle_text(&["The TRAINER blocked the BALL!"]));
    observe(&mut memory, &text, "PIDGEY", None);
    text.frame_id = 4;
    observe(&mut memory, &text, "PIDGEY", None);
    assert!(memory.trainer);
    assert!(memory.catch.attempt.is_none());
    // The battle goes on as a trainer battle: FIGHT, no RUN.
    assert_eq!(
        decide_on(&data, &party, &mut memory, &wild(5, COMMAND, 1000), &throw()),
        "choose FIGHT"
    );
}

#[test]
fn a_new_turn_confirms_the_hud_afresh() {
    let data = data();
    let party = Party { members: vec![ivysaur()] };
    let state = with_balls(&[("ITEM_POKE_BALL", 10)]);
    let mut memory = BattleMemory::default();
    let mut events = identified(&data, &state, &party, &mut memory, &sleep());
    assert_eq!(
        decide_on(&data, &party, &mut memory, &wild(3, COMMAND, 1000), &sleep()),
        "choose FIGHT"
    );
    // The turn's text, then the next command menu with the same HUD.
    let mut text = wild(5, COMMAND, 1000);
    text.battle.as_mut().unwrap().menu = None;
    text.dialogue = Some(battle_text(&["Wild PIDGEY used", "TACKLE!"]));
    memory.catch.observe(&text, "PIDGEY", None);
    let policy = BattlePolicy::default();
    let first = decide(
        &wild(6, COMMAND, 1000),
        &policy,
        &mut memory,
        &party,
        &data,
        None,
        None,
        &mut events,
    );
    assert!(
        matches!(first, Some(Decision::Wait(ref r)) if r.contains("confirming the HUD")),
        "a stale reading confirmed a new menu"
    );
    // The same reading as before: its odds are at hand.
    assert!(
        attempt_question(&wild(7, COMMAND, 1000), &policy, &memory, &party, &data).is_none()
    );
    let second = decide(
        &wild(7, COMMAND, 1000),
        &policy,
        &mut memory,
        &party,
        &data,
        None,
        None,
        &mut events,
    );
    assert!(matches!(second, Some(Decision::Act(_))));
}

#[test]
fn an_opponent_that_never_reads_is_fought() {
    let data = data();
    let party = Party { members: vec![ivysaur()] };
    let state = with_balls(&[("ITEM_POKE_BALL", 10)]);
    let mut memory = BattleMemory::default();
    let mut events = Vec::new();
    for f in 0..=180 {
        let mut o = wild(f, COMMAND, 1000);
        o.battle.as_mut().unwrap().opponent_name = Some("???".into());
        identify(&o, &data, &state, &party, &mut memory, None, &mut events);
    }
    assert!(memory.catch.decided && memory.catch.attempt.is_none());
    assert_eq!(
        events,
        vec![GameEvent::GoalProgress {
            goal: "Story".into(),
            phase: "Catch".into(),
            detail: "wild opponent not identified (Some(\"???\") LvSome(6)): no catch".into(),
        }]
    );
}

#[test]
fn without_odds_the_attempt_is_abandoned() {
    let data = data();
    let party = Party { members: vec![ivysaur()] };
    let state = with_balls(&[("ITEM_POKE_BALL", 10)]);
    let mut memory = BattleMemory::default();
    let mut events = identified(&data, &state, &party, &mut memory, &throw());
    let policy = BattlePolicy::default();
    for f in [3, 4] {
        decide(&wild(f, COMMAND, 1000), &policy, &mut memory, &party, &data, None, None, &mut events);
    }
    assert!(memory.catch.attempt.is_none() && !memory.catch.flee);
    assert!(matches!(
        events.last(),
        Some(GameEvent::GoalProgress { detail, .. })
            if detail == "SPECIES_PIDGEY: no odds (unknown to the game data): abandoning the catch"
    ));
}

#[test]
fn the_pokedex_page_is_closed_on_its_second_frame() {
    let mut memory = CatchMemory::default();
    let mut o = Observation::bare(5, ScreenState::Unknown);
    assert!(dismiss_pokedex(&mut memory, &o).is_none());
    o.pokedex_page = true;
    assert_eq!(told(dismiss_pokedex(&mut memory, &o)), "wait: confirming the Pokédex page");
    o.frame_id = 6;
    assert_eq!(told(dismiss_pokedex(&mut memory, &o)), "close the Pokédex page");
}

#[test]
fn status_text_names_the_foe_as_it_is_printed() {
    let told = |printed: &str| {
        let mut memory = CatchMemory {
            foe: Some(("SPECIES_MR_MIME".into(), 6)),
            attempt: Some(attempt(throw(), false, false, 10)),
            ..CatchMemory::default()
        };
        for f in [1, 2] {
            memory.observe(&page(f, &["Wild MR. MIME", "fell asleep!"]), printed, None);
        }
        memory.attempt.unwrap().foe_status
    };
    assert_eq!(told("MR. MIME"), FoeStatus::Asleep);
    assert_eq!(told("PIDGEY"), FoeStatus::Healthy);
}
